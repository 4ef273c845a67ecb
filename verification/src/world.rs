//! The terrain the actors fight over: a wide ground slab and a stepped
//! ziggurat, with a thin cliff-edge sensor at each step's leading edge
//! that drives the climber's vault.

use vstd::prelude::*;

verus! {

/// How many ziggurat steps the map holds (the topmost is a thin cap).
pub const STEP_COUNT: usize = 4;

/// What a terrain rectangle is for.
#[derive(PartialEq, Eq, Structural, Clone, Copy, Debug)]
pub enum RectKind {
    Ground,
    Step,
    CliffSensor,
}

/// An axis-aligned terrain rectangle in fixed-point world coordinates:
/// center and full extents.
#[derive(PartialEq, Eq, Structural, Clone, Copy, Debug)]
pub struct WorldRect {
    pub kind: RectKind,
    pub cx: i64,
    pub cy: i64,
    pub w: i64,
    pub h: i64,
}

/// The width of step `i`: the steps narrow going up, and the topmost is
/// a thin cap.
pub open spec fn step_width(i: int) -> int {
    if i < 3 {
        22000 - 6400 * i
    } else {
        1000
    }
}

/// The center height of step `i`.
pub open spec fn step_y(i: int) -> int {
    1000 + 2000 * i
}

/// The ground slab.
pub open spec fn spec_ground_rect() -> WorldRect {
    WorldRect { kind: RectKind::Ground, cx: 0, cy: -3000i64, w: 100000, h: 6000 }
}

/// Step `i` of the ziggurat.
pub open spec fn spec_step_rect(i: int) -> WorldRect {
    WorldRect { kind: RectKind::Step, cx: 0, cy: step_y(i) as i64, w: step_width(i) as i64, h: 2000 }
}

/// The cliff-edge sensor of step `i`: a thin trigger volume slightly
/// wider than the step, sitting just below the step's top face.
pub open spec fn spec_cliff_rect(i: int) -> WorldRect {
    WorldRect {
        kind: RectKind::CliffSensor,
        cx: 0,
        cy: (step_y(i) - 500) as i64,
        w: (step_width(i) + 1500) as i64,
        h: 10,
    }
}

/// Builds the whole terrain: the ground slab first, then each step
/// paired with its cliff-edge sensor, bottom to top.
pub fn world_layout() -> (v: Vec<WorldRect>)
    ensures
        v@.len() == 9,
        v@[0] == spec_ground_rect(),
        forall|i: int|
            0 <= i < 4 ==> v@[1 + 2 * i] == spec_step_rect(i) && v@[2 + 2 * i] == spec_cliff_rect(
                i,
            ),
{
    let mut v: Vec<WorldRect> = Vec::new();
    v.push(WorldRect { kind: RectKind::Ground, cx: 0, cy: -3000, w: 100000, h: 6000 });
    let mut i: usize = 0;
    while i < STEP_COUNT
        invariant
            0 <= i <= 4,
            v@.len() == 1 + 2 * i,
            v@[0] == spec_ground_rect(),
            forall|j: int|
                0 <= j < i ==> v@[1 + 2 * j] == spec_step_rect(j) && v@[2 + 2 * j]
                    == spec_cliff_rect(j),
        decreases 4 - i,
    {
        let width: i64 = if i < 3 {
            22000 - 6400 * (i as i64)
        } else {
            1000
        };
        let y: i64 = 1000 + 2000 * (i as i64);
        v.push(WorldRect { kind: RectKind::Step, cx: 0, cy: y, w: width, h: 2000 });
        v.push(
            WorldRect { kind: RectKind::CliffSensor, cx: 0, cy: y - 500, w: width + 1500, h: 10 },
        );
        i = i + 1;
    }
    v
}

} // verus!
