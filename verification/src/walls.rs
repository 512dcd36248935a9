//! The scrolling wall segments at the screen edges.  They ride upward at
//! the ambient fall speed and wrap around to fake an endless tower.

use vstd::prelude::*;

use crate::components::{Dimensions, Transform, Wall};
use crate::constants::{DELTA_LIMIT, EXTENT_LIMIT, FALLING_SPEED, LEFT_WALL, RIGHT_WALL};
use crate::math::{advance_coord, advanced, Vec2, Vec3};

verus! {

pub struct WallPlugin;

/// One wall segment.
#[derive(Clone, Copy, PartialEq, Eq, Structural, Debug)]
pub struct WallBundle {
    pub wall: Wall,
    pub dimensions: Dimensions,
    pub transform: Transform,
    pub marked: bool,
}

/// Vertical position of the wall segment at `index`, stacked below the
/// roof.
pub open spec fn spec_wall_y(index: int, roof_height: int) -> int {
    index * 224_000 - (roof_height / 2 + 112_000) - 100_000
}

pub open spec fn spec_left_wall(index: int, roof_height: int) -> WallBundle {
    WallBundle {
        wall: Wall,
        dimensions: Dimensions(Vec2 { x: 48_000, y: 224_000 }),
        transform: Transform {
            translation: Vec3 {
                x: (LEFT_WALL - 24_000) as i64,
                y: spec_wall_y(index, roof_height) as i64,
                z: 0,
            },
            scale: Vec2 { x: 1000, y: 1000 },
            rotation_mdeg: 0,
        },
        marked: false,
    }
}

pub open spec fn spec_right_wall(index: int, roof_height: int) -> WallBundle {
    WallBundle {
        transform: Transform {
            translation: Vec3 {
                x: (RIGHT_WALL + 24_000) as i64,
                y: spec_wall_y(index, roof_height) as i64,
                z: 0,
            },
            scale: Vec2 { x: 1000, y: 1000 },
            rotation_mdeg: 0,
        },
        ..spec_left_wall(index, roof_height)
    }
}

impl WallBundle {
    pub open spec fn wf(self) -> bool {
        &&& self.transform.wf()
        &&& self.dimensions.wf()
    }

    /// A segment of the left wall, just outside the left bound.
    pub fn left_wall(index: i64, left_roof_height: i64) -> (w: WallBundle)
        requires
            -1000 <= index <= 1000,
            0 <= left_roof_height <= EXTENT_LIMIT,
        ensures
            w == spec_left_wall(index as int, left_roof_height as int),
            w.wf(),
    {
        let y = index * 224_000 - (crate::math::half_extent(left_roof_height) + 112_000)
            - 100_000;
        WallBundle {
            wall: Wall,
            dimensions: Dimensions(Vec2 { x: 48_000, y: 224_000 }),
            transform: Transform {
                translation: Vec3 { x: LEFT_WALL - 24_000, y, z: 0 },
                scale: Vec2 { x: 1000, y: 1000 },
                rotation_mdeg: 0,
            },
            marked: false,
        }
    }

    /// A segment of the right wall, just outside the right bound.
    pub fn right_wall(index: i64, right_roof_height: i64) -> (w: WallBundle)
        requires
            -1000 <= index <= 1000,
            0 <= right_roof_height <= EXTENT_LIMIT,
        ensures
            w == spec_right_wall(index as int, right_roof_height as int),
            w.wf(),
    {
        let y = index * 224_000 - (crate::math::half_extent(right_roof_height) + 112_000)
            - 100_000;
        WallBundle {
            wall: Wall,
            dimensions: Dimensions(Vec2 { x: 48_000, y: 224_000 }),
            transform: Transform {
                translation: Vec3 { x: RIGHT_WALL + 24_000, y, z: 0 },
                scale: Vec2 { x: 1000, y: 1000 },
                rotation_mdeg: 0,
            },
            marked: false,
        }
    }
}

/// One scroll tick of a wall segment: it rides upward at the ambient fall
/// speed, and a segment far enough above the screen drops three segment
/// heights to re-enter from below.
pub open spec fn spec_wall_step(w: WallBundle, dt: int) -> WallBundle {
    let y = advanced(w.transform.translation.y as int, FALLING_SPEED as int, dt);
    let wrapped: int = if y > 3 * w.dimensions.0.y / 2 { y - 3 * w.dimensions.0.y } else { y };
    WallBundle {
        transform: Transform {
            translation: Vec3 {
                x: w.transform.translation.x,
                y: wrapped as i64,
                z: w.transform.translation.z,
            },
            ..w.transform
        },
        ..w
    }
}

/// Scroll every wall segment.
pub fn wall_animator(walls: &mut Vec<WallBundle>, dt: u64)
    requires
        forall|i: int| 0 <= i < old(walls)@.len() ==> #[trigger] old(walls)@[i].wf(),
        dt <= DELTA_LIMIT,
    ensures
        final(walls)@.len() == old(walls)@.len(),
        forall|i: int| 0 <= i < old(walls)@.len()
            ==> #[trigger] final(walls)@[i] == spec_wall_step(old(walls)@[i], dt as int),
        forall|i: int| 0 <= i < final(walls)@.len() ==> #[trigger] final(walls)@[i].wf(),
{
    let ghost orig = walls@;
    let mut i: usize = 0;
    while i < walls.len()
        invariant
            i <= walls@.len(),
            walls@.len() == orig.len(),
            dt <= DELTA_LIMIT,
            forall|j: int| 0 <= j < orig.len() ==> #[trigger] orig[j].wf(),
            forall|j: int| i <= j < orig.len() ==> #[trigger] walls@[j] == orig[j],
            forall|j: int| 0 <= j < i
                ==> #[trigger] walls@[j] == spec_wall_step(orig[j], dt as int),
            forall|j: int| 0 <= j < i ==> #[trigger] walls@[j].wf(),
        decreases walls@.len() - i,
    {
        proof {
            assert(walls@[i as int] == orig[i as int]);
            assert(orig[i as int].wf());
        }
        let mut w = walls[i];
        let y = advance_coord(w.transform.translation.y, FALLING_SPEED, dt);
        let three_heights = 3 * w.dimensions.0.y;
        w.transform.translation.y = if y > crate::math::half_extent(three_heights) {
            y - three_heights
        } else {
            y
        };
        walls.set(i, w);
        i = i + 1;
    }
}

} // verus!
