//! The rooftops flanking the playfield.  They ride upward with the walls
//! and despawn once they leave the screen; `build_towers` erects the whole
//! scenery when the stage starts.

use vstd::prelude::*;

use crate::components::{Dimensions, Roof, Transform};
use crate::constants::{COORD_LIMIT, DELTA_LIMIT, FALLING_SPEED, LEFT_WALL, RIGHT_WALL};
use crate::math::{advance_coord, advanced, Vec2, Vec3};
use crate::walls::{spec_left_wall, spec_right_wall, WallBundle};

verus! {

pub struct RoofPlugin;

/// One rooftop.
#[derive(Clone, Copy, PartialEq, Eq, Structural, Debug)]
pub struct RoofBundle {
    pub roof: Roof,
    pub dimensions: Dimensions,
    pub transform: Transform,
    pub marked: bool,
}

pub open spec fn spec_left_roof(y_pos: int) -> RoofBundle {
    RoofBundle {
        roof: Roof,
        dimensions: Dimensions(Vec2 { x: 174_000, y: 224_000 }),
        transform: Transform {
            translation: Vec3 { x: (LEFT_WALL + 87_000 - 48_000) as i64, y: y_pos as i64, z: 1000 },
            scale: Vec2 { x: 1000, y: 1000 },
            rotation_mdeg: 0,
        },
        marked: false,
    }
}

pub open spec fn spec_right_roof(y_pos: int) -> RoofBundle {
    RoofBundle {
        roof: Roof,
        dimensions: Dimensions(Vec2 { x: 48_000, y: 224_000 }),
        transform: Transform {
            translation: Vec3 { x: (RIGHT_WALL + 24_000) as i64, y: y_pos as i64, z: 1000 },
            scale: Vec2 { x: 1000, y: 1000 },
            rotation_mdeg: 0,
        },
        marked: false,
    }
}

impl RoofBundle {
    pub open spec fn wf(self) -> bool {
        &&& self.transform.wf()
        &&& self.dimensions.wf()
    }

    pub fn left_roof(y_pos: i64) -> (r: RoofBundle)
        requires
            -COORD_LIMIT <= y_pos <= COORD_LIMIT,
        ensures
            r == spec_left_roof(y_pos as int),
            r.wf(),
    {
        RoofBundle {
            roof: Roof,
            dimensions: Dimensions(Vec2 { x: 174_000, y: 224_000 }),
            transform: Transform {
                translation: Vec3 { x: LEFT_WALL + 87_000 - 48_000, y: y_pos, z: 1000 },
                scale: Vec2 { x: 1000, y: 1000 },
                rotation_mdeg: 0,
            },
            marked: false,
        }
    }

    pub fn right_roof(y_pos: i64) -> (r: RoofBundle)
        requires
            -COORD_LIMIT <= y_pos <= COORD_LIMIT,
        ensures
            r == spec_right_roof(y_pos as int),
            r.wf(),
    {
        RoofBundle {
            roof: Roof,
            dimensions: Dimensions(Vec2 { x: 48_000, y: 224_000 }),
            transform: Transform {
                translation: Vec3 { x: RIGHT_WALL + 24_000, y: y_pos, z: 1000 },
                scale: Vec2 { x: 1000, y: 1000 },
                rotation_mdeg: 0,
            },
            marked: false,
        }
    }
}

/// Erect the scenery for a fresh stage: both rooftops at the start height
/// and five wall segments on each side, interleaved left then right from
/// the lowest index up.
pub fn build_towers(walls: &mut Vec<WallBundle>, roofs: &mut Vec<RoofBundle>)
    ensures
        final(roofs)@ =~= old(roofs)@.push(spec_left_roof(-100_000)).push(
            spec_right_roof(-100_000)),
        final(walls)@ =~= old(walls)@
            + seq![
                spec_left_wall(-4, 224_000), spec_right_wall(-4, 224_000),
                spec_left_wall(-3, 224_000), spec_right_wall(-3, 224_000),
                spec_left_wall(-2, 224_000), spec_right_wall(-2, 224_000),
                spec_left_wall(-1, 224_000), spec_right_wall(-1, 224_000),
                spec_left_wall(0, 224_000), spec_right_wall(0, 224_000),
            ],
{
    let left_wall_roof = RoofBundle::left_roof(-100_000);
    let left_roof_height = left_wall_roof.dimensions.0.y;
    roofs.push(left_wall_roof);

    let right_wall_roof = RoofBundle::right_roof(-100_000);
    let right_roof_height = right_wall_roof.dimensions.0.y;
    roofs.push(right_wall_roof);

    let mut i: i64 = -4;
    while i <= 0
        invariant
            -4 <= i <= 1,
            left_roof_height == 224_000,
            right_roof_height == 224_000,
            walls@ =~= old(walls)@ + Seq::new(
                (2 * (i + 4)) as nat,
                |k: int| if k % 2 == 0 {
                    spec_left_wall(k / 2 - 4, 224_000)
                } else {
                    spec_right_wall(k / 2 - 4, 224_000)
                },
            ),
        decreases 1 - i,
    {
        walls.push(WallBundle::left_wall(i, left_roof_height));
        walls.push(WallBundle::right_wall(i, right_roof_height));
        i = i + 1;
    }
    proof {
        let built = Seq::new(
            10nat,
            |k: int| if k % 2 == 0 {
                spec_left_wall(k / 2 - 4, 224_000)
            } else {
                spec_right_wall(k / 2 - 4, 224_000)
            },
        );
        let expected = seq![
            spec_left_wall(-4, 224_000), spec_right_wall(-4, 224_000),
            spec_left_wall(-3, 224_000), spec_right_wall(-3, 224_000),
            spec_left_wall(-2, 224_000), spec_right_wall(-2, 224_000),
            spec_left_wall(-1, 224_000), spec_right_wall(-1, 224_000),
            spec_left_wall(0, 224_000), spec_right_wall(0, 224_000),
        ];
        assert(built[0] == expected[0]);
        assert(built[1] == expected[1]);
        assert(built[2] == expected[2]);
        assert(built[3] == expected[3]);
        assert(built[4] == expected[4]);
        assert(built[5] == expected[5]);
        assert(built[6] == expected[6]);
        assert(built[7] == expected[7]);
        assert(built[8] == expected[8]);
        assert(built[9] == expected[9]);
        assert(built =~= expected);
    }
}

/// One scroll tick of a rooftop: it rides upward and is tagged for despawn
/// three heights above the screen.
pub open spec fn spec_roof_step(r: RoofBundle, dt: int) -> RoofBundle {
    let y = advanced(r.transform.translation.y as int, FALLING_SPEED as int, dt);
    RoofBundle {
        transform: Transform {
            translation: Vec3 {
                x: r.transform.translation.x,
                y: y as i64,
                z: r.transform.translation.z,
            },
            ..r.transform
        },
        marked: r.marked || y > 3 * r.dimensions.0.y,
        ..r
    }
}

/// Scroll every rooftop and retire the ones far above the screen.
pub fn roof_animator(roofs: &mut Vec<RoofBundle>, dt: u64)
    requires
        forall|i: int| 0 <= i < old(roofs)@.len() ==> #[trigger] old(roofs)@[i].wf(),
        dt <= DELTA_LIMIT,
    ensures
        final(roofs)@.len() == old(roofs)@.len(),
        forall|i: int| 0 <= i < old(roofs)@.len()
            ==> #[trigger] final(roofs)@[i] == spec_roof_step(old(roofs)@[i], dt as int),
        forall|i: int| 0 <= i < final(roofs)@.len() ==> #[trigger] final(roofs)@[i].wf(),
{
    let ghost orig = roofs@;
    let mut i: usize = 0;
    while i < roofs.len()
        invariant
            i <= roofs@.len(),
            roofs@.len() == orig.len(),
            dt <= DELTA_LIMIT,
            forall|j: int| 0 <= j < orig.len() ==> #[trigger] orig[j].wf(),
            forall|j: int| i <= j < orig.len() ==> #[trigger] roofs@[j] == orig[j],
            forall|j: int| 0 <= j < i
                ==> #[trigger] roofs@[j] == spec_roof_step(orig[j], dt as int),
            forall|j: int| 0 <= j < i ==> #[trigger] roofs@[j].wf(),
        decreases roofs@.len() - i,
    {
        proof {
            assert(roofs@[i as int] == orig[i as int]);
            assert(orig[i as int].wf());
        }
        let mut r = roofs[i];
        r.transform.translation.y = advance_coord(r.transform.translation.y, FALLING_SPEED, dt);
        if r.transform.translation.y > 3 * r.dimensions.0.y {
            r.marked = true;
        }
        roofs.set(i, r);
        i = i + 1;
    }
}

} // verus!
