//! Resting orientation of a cube: which face is up, and whether the cube
//! rests flat on a face or is cocked on an edge or a corner.

use crate::fixed::{magnitude, Quat, SpecVec3, WorldVec3, SCALE};
use vstd::prelude::*;

verus! {

/// The six faces of a die, in the order of their pips.
#[derive(Clone, Copy, Debug, PartialEq, Eq, Structural)]
pub enum Face {
    Top,
    Right,
    Back,
    Front,
    Left,
    Bottom,
}

impl Face {
    /// The pips on the face, one to six.
    pub open spec fn pips(self) -> int {
        match self {
            Face::Top => 1,
            Face::Right => 2,
            Face::Back => 3,
            Face::Front => 4,
            Face::Left => 5,
            Face::Bottom => 6,
        }
    }

    /// The outward unit normal of the face in the die's own frame.
    pub open spec fn normal(self) -> SpecVec3 {
        match self {
            Face::Top => SpecVec3 { x: 0, y: 1, z: 0 },
            Face::Right => SpecVec3 { x: 1, y: 0, z: 0 },
            Face::Back => SpecVec3 { x: 0, y: 0, z: -1 },
            Face::Front => SpecVec3 { x: 0, y: 0, z: 1 },
            Face::Left => SpecVec3 { x: -1, y: 0, z: 0 },
            Face::Bottom => SpecVec3 { x: 0, y: -1, z: 0 },
        }
    }

    /// The face's normal in world space under `rotation`, in units of
    /// `SCALE * SCALE`.
    pub open spec fn world_normal(self, rotation: Quat) -> SpecVec3 {
        rotation.rotate(self.normal())
    }

    /// The pips on the face.
    pub fn number(self) -> (n: u8)
        ensures
            n == self.pips(),
            1 <= n <= 6,
    {
        match self {
            Face::Top => 1,
            Face::Right => 2,
            Face::Back => 3,
            Face::Front => 4,
            Face::Left => 5,
            Face::Bottom => 6,
        }
    }

    /// The face with `n` pips, if `n` is one to six.
    pub fn from_number(n: u8) -> (face: Option<Face>)
        ensures
            face is Some <==> 1 <= n <= 6,
            face is Some ==> face->0.pips() == n,
    {
        match n {
            1 => Some(Face::Top),
            2 => Some(Face::Right),
            3 => Some(Face::Back),
            4 => Some(Face::Front),
            5 => Some(Face::Left),
            6 => Some(Face::Bottom),
            _ => None,
        }
    }
}

/// Computes the world-space normal of `face` under `rotation`, exactly.
pub fn world_normal(rotation: &Quat, face: Face) -> (n: WorldVec3)
    ensures
        n@ == face.world_normal(*rotation),
{
    match face {
        Face::Top => rotation.rotate_axis(0, 1, 0),
        Face::Right => rotation.rotate_axis(1, 0, 0),
        Face::Back => rotation.rotate_axis(0, 0, -1),
        Face::Front => rotation.rotate_axis(0, 0, 1),
        Face::Left => rotation.rotate_axis(-1, 0, 0),
        Face::Bottom => rotation.rotate_axis(0, -1, 0),
    }
}

/// Whether a world-space component `c`, in units of `SCALE * SCALE`, lies
/// strictly inside the band from `tolerance` to one minus `tolerance`, sign
/// set aside. `tolerance` is in millionths.
pub open spec fn in_band(c: int, tolerance: int) -> bool {
    tolerance * SCALE < magnitude(c) && magnitude(c) < (SCALE - tolerance) * SCALE
}

/// Whether any of the three components of `n` lies inside the band.
pub open spec fn off_axis(n: SpecVec3, tolerance: int) -> bool {
    in_band(n.x, tolerance) || in_band(n.y, tolerance) || in_band(n.z, tolerance)
}

/// A die is cocked when some face's world-space normal has a component
/// inside the band; otherwise it is settled on a face.
pub open spec fn cocked(rotation: Quat, tolerance: int) -> bool {
    exists|face: Face| off_axis(#[trigger] face.world_normal(rotation), tolerance)
}

/// Whether `face` is the one that faces up under `rotation`: no face's
/// world-space normal reaches higher, and among the faces that reach as high
/// it has the fewest pips.
pub open spec fn faces_up(rotation: Quat, face: Face) -> bool {
    forall|other: Face|
        {
            let height = #[trigger] other.world_normal(rotation).y;
            let top = face.world_normal(rotation).y;
            height <= top && (other.pips() < face.pips() ==> height < top)
        }
}

fn component_in_band(c: i128, tolerance: i64) -> (inside: bool)
    ensures
        inside == in_band(c as int, tolerance as int),
{
    let size: u128 = if c < 0 {
        (-(c + 1)) as u128 + 1
    } else {
        c as u128
    };
    assert(SCALE == 1_000_000);
    let low: i128 = (tolerance as i128) * 1_000_000;
    let high: i128 = (1_000_000 - tolerance as i128) * 1_000_000;
    (low < 0 || (low as u128) < size) && high > 0 && size < high as u128
}

fn normal_off_axis(rotation: &Quat, face: Face, tolerance: i64) -> (off: bool)
    ensures
        off == off_axis(face.world_normal(*rotation), tolerance as int),
{
    let n = world_normal(rotation, face);
    component_in_band(n.x, tolerance) || component_in_band(n.y, tolerance) || component_in_band(
        n.z,
        tolerance,
    )
}

/// The six faces, in the order of their pips.
pub fn cube_sides() -> (sides: [Face; 6])
    ensures
        forall|i: int| 0 <= i < 6 ==> (#[trigger] sides@[i]).pips() == i + 1,
{
    [Face::Top, Face::Right, Face::Back, Face::Front, Face::Left, Face::Bottom]
}

/// No two faces have the same number of pips.
pub proof fn lemma_pips_tell_faces_apart(first: Face, second: Face)
    ensures
        1 <= first.pips() <= 6,
        first.pips() == second.pips() ==> first == second,
{
}

/// Decides whether a die at rest under `rotation` is cocked.
pub fn is_die_cocked(rotation: &Quat, tolerance: i64) -> (is_cocked: bool)
    ensures
        is_cocked == cocked(*rotation, tolerance as int),
{
    let sides = cube_sides();
    let mut i: usize = 0;
    while i < 6
        invariant
            i <= 6,
            forall|j: int| 0 <= j < 6 ==> (#[trigger] sides@[j]).pips() == j + 1,
            forall|j: int|
                0 <= j < i ==> !off_axis(
                    (#[trigger] sides@[j]).world_normal(*rotation),
                    tolerance as int,
                ),
        decreases 6 - i,
    {
        if normal_off_axis(rotation, sides[i], tolerance) {
            return true;
        }
        i += 1;
    }
    proof {
        assert forall|face: Face| !off_axis(
            #[trigger] face.world_normal(*rotation),
            tolerance as int,
        ) by {
            lemma_pips_tell_faces_apart(face, sides@[face.pips() - 1]);
        }
    }
    false
}

/// Finds the face that faces up under `rotation`.
pub fn face_up(rotation: &Quat) -> (face: Face)
    ensures
        faces_up(*rotation, face),
{
    let sides = cube_sides();
    let mut best: usize = 0;
    let mut top: i128 = world_normal(rotation, sides[0]).y;
    let mut i: usize = 1;
    while i < 6
        invariant
            1 <= i <= 6,
            best < i,
            forall|j: int| 0 <= j < 6 ==> (#[trigger] sides@[j]).pips() == j + 1,
            top == sides@[best as int].world_normal(*rotation).y,
            forall|j: int|
                0 <= j < i ==> {
                    let height = (#[trigger] sides@[j]).world_normal(*rotation).y;
                    height <= top && (j < best ==> height < top)
                },
        decreases 6 - i,
    {
        let height: i128 = world_normal(rotation, sides[i]).y;
        if height > top {
            best = i;
            top = height;
        }
        i += 1;
    }
    proof {
        assert forall|other: Face|
            {
                let height = #[trigger] other.world_normal(*rotation).y;
                height <= top && (other.pips() < sides@[best as int].pips() ==> height < top)
            } by {
            lemma_pips_tell_faces_apart(other, sides@[other.pips() - 1]);
        }
    }
    sides[best]
}

} // verus!
