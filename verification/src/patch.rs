//! Regions of the atlas and the way a cuboid is unwrapped around one.
//!
//! A skin atlas stores each body part as the unwrapped surface of a cuboid.
//! One rectangle, the front face, together with the depth of the cuboid
//! names the whole part: the other five faces lie at fixed places around it.
//!
//! ```text
//!            x       x+w       x+2w
//!   y-d      +--------+---------+
//!            |  top   | bottom  |
//!   y   +----+--------+----+----+--------+
//!       |left| front  |right    | back   |
//!   y+h +----+--------+---------+--------+
//!      x-d   x       x+w     x+w+d    x+2w+d
//! ```

use vstd::prelude::*;
use crate::geometry::Vec3;

verus! {

/// The six faces of a cuboid. The front looks along +Z, the right along +X
/// and the top along +Y.
#[derive(Clone, Copy, PartialEq, Eq, Debug, Structural)]
pub enum Direction {
    Front,
    Right,
    Back,
    Left,
    Top,
    Bottom,
}

impl Direction {
    /// The place of the face in the order front, right, back, left, top,
    /// bottom.
    pub open spec fn spec_index(self) -> u8 {
        match self {
            Direction::Front => 0,
            Direction::Right => 1,
            Direction::Back => 2,
            Direction::Left => 3,
            Direction::Top => 4,
            Direction::Bottom => 5,
        }
    }

    /// The place of the face in the order front, right, back, left, top,
    /// bottom.
    #[verifier::when_used_as_spec(spec_index)]
    pub fn index(self) -> (i: u8)
        ensures
            i == self.spec_index(),
            i < 6,
    {
        match self {
            Direction::Front => 0,
            Direction::Right => 1,
            Direction::Back => 2,
            Direction::Left => 3,
            Direction::Top => 4,
            Direction::Bottom => 5,
        }
    }

    /// The face at place `i` of the order, for `i` below six.
    pub open spec fn at(i: int) -> Direction {
        if i == 0 {
            Direction::Front
        } else if i == 1 {
            Direction::Right
        } else if i == 2 {
            Direction::Back
        } else if i == 3 {
            Direction::Left
        } else if i == 4 {
            Direction::Top
        } else {
            Direction::Bottom
        }
    }

    /// The six faces in order.
    pub fn all() -> (faces: [Direction; 6])
        ensures
            forall|i: int| 0 <= i < 6 ==> faces[i] == Direction::at(i),
    {
        [
            Direction::Front,
            Direction::Right,
            Direction::Back,
            Direction::Left,
            Direction::Top,
            Direction::Bottom,
        ]
    }
}

/// A rectangle of the atlas, `width` by `height` pixels with its top left
/// pixel at (`x`, `y`), that is one face of a cuboid `depth` pixels deep.
///
/// Only the front face of a part is ever written down. The other faces are
/// derived from it, so the six faces of a part cannot disagree.
#[derive(Clone, Copy, PartialEq, Eq, Debug, Structural)]
pub struct Patch {
    pub x: u32,
    pub y: u32,
    pub width: u32,
    pub height: u32,
    pub depth: u32,
}

impl Patch {
    pub open spec fn spec_new(x: u32, y: u32, width: u32, height: u32, depth: u32) -> Patch {
        Patch { x, y, width, height, depth }
    }

    /// The front face `width` by `height` at (`x`, `y`) of a cuboid `depth`
    /// deep.
    #[verifier::when_used_as_spec(spec_new)]
    pub fn new(x: u32, y: u32, width: u32, height: u32, depth: u32) -> (patch: Patch)
        ensures
            patch == Self::spec_new(x, y, width, height, depth),
    {
        Patch { x, y, width, height, depth }
    }

    pub open spec fn spec_head() -> Patch {
        Patch { x: 8, y: 8, width: 8, height: 8, depth: 8 }
    }

    /// The head.
    #[verifier::when_used_as_spec(spec_head)]
    pub fn head() -> (patch: Patch)
        ensures
            patch == Self::spec_head(),
    {
        Patch { x: 8, y: 8, width: 8, height: 8, depth: 8 }
    }

    pub open spec fn spec_torso() -> Patch {
        Patch { x: 20, y: 20, width: 8, height: 12, depth: 4 }
    }

    /// The torso.
    #[verifier::when_used_as_spec(spec_torso)]
    pub fn torso() -> (patch: Patch)
        ensures
            patch == Self::spec_torso(),
    {
        Patch { x: 20, y: 20, width: 8, height: 12, depth: 4 }
    }

    pub open spec fn spec_right_leg() -> Patch {
        Patch { x: 4, y: 20, width: 4, height: 12, depth: 4 }
    }

    /// The right leg.
    #[verifier::when_used_as_spec(spec_right_leg)]
    pub fn right_leg() -> (patch: Patch)
        ensures
            patch == Self::spec_right_leg(),
    {
        Patch { x: 4, y: 20, width: 4, height: 12, depth: 4 }
    }

    pub open spec fn spec_right_arm() -> Patch {
        Patch { x: 44, y: 20, width: 4, height: 12, depth: 4 }
    }

    /// The right arm, four pixels wide.
    #[verifier::when_used_as_spec(spec_right_arm)]
    pub fn right_arm() -> (patch: Patch)
        ensures
            patch == Self::spec_right_arm(),
    {
        Patch { x: 44, y: 20, width: 4, height: 12, depth: 4 }
    }

    pub open spec fn spec_slim_right_arm() -> Patch {
        Patch { x: 44, y: 20, width: 3, height: 12, depth: 4 }
    }

    /// The right arm of a slim skin, three pixels wide.
    #[verifier::when_used_as_spec(spec_slim_right_arm)]
    pub fn slim_right_arm() -> (patch: Patch)
        ensures
            patch == Self::spec_slim_right_arm(),
    {
        Patch { x: 44, y: 20, width: 3, height: 12, depth: 4 }
    }

    pub open spec fn spec_left_leg() -> Patch {
        Patch { x: 20, y: 52, width: 4, height: 12, depth: 4 }
    }

    /// The left leg.
    #[verifier::when_used_as_spec(spec_left_leg)]
    pub fn left_leg() -> (patch: Patch)
        ensures
            patch == Self::spec_left_leg(),
    {
        Patch { x: 20, y: 52, width: 4, height: 12, depth: 4 }
    }

    pub open spec fn spec_left_arm() -> Patch {
        Patch { x: 36, y: 52, width: 4, height: 12, depth: 4 }
    }

    /// The left arm, four pixels wide.
    #[verifier::when_used_as_spec(spec_left_arm)]
    pub fn left_arm() -> (patch: Patch)
        ensures
            patch == Self::spec_left_arm(),
    {
        Patch { x: 36, y: 52, width: 4, height: 12, depth: 4 }
    }

    pub open spec fn spec_slim_left_arm() -> Patch {
        Patch { x: 36, y: 52, width: 3, height: 12, depth: 4 }
    }

    /// The left arm of a slim skin, three pixels wide.
    #[verifier::when_used_as_spec(spec_slim_left_arm)]
    pub fn slim_left_arm() -> (patch: Patch)
        ensures
            patch == Self::spec_slim_left_arm(),
    {
        Patch { x: 36, y: 52, width: 3, height: 12, depth: 4 }
    }

    pub open spec fn spec_helmet() -> Patch {
        Patch { x: 40, y: 8, width: 8, height: 8, depth: 8 }
    }

    /// The overlay of the head.
    #[verifier::when_used_as_spec(spec_helmet)]
    pub fn helmet() -> (patch: Patch)
        ensures
            patch == Self::spec_helmet(),
    {
        Patch { x: 40, y: 8, width: 8, height: 8, depth: 8 }
    }

    pub open spec fn spec_shirt() -> Patch {
        Patch { x: 20, y: 36, width: 8, height: 12, depth: 4 }
    }

    /// The overlay of the torso.
    #[verifier::when_used_as_spec(spec_shirt)]
    pub fn shirt() -> (patch: Patch)
        ensures
            patch == Self::spec_shirt(),
    {
        Patch { x: 20, y: 36, width: 8, height: 12, depth: 4 }
    }

    pub open spec fn spec_right_pants() -> Patch {
        Patch { x: 4, y: 36, width: 4, height: 12, depth: 4 }
    }

    /// The overlay of the right leg.
    #[verifier::when_used_as_spec(spec_right_pants)]
    pub fn right_pants() -> (patch: Patch)
        ensures
            patch == Self::spec_right_pants(),
    {
        Patch { x: 4, y: 36, width: 4, height: 12, depth: 4 }
    }

    pub open spec fn spec_right_sleeve() -> Patch {
        Patch { x: 44, y: 36, width: 4, height: 12, depth: 4 }
    }

    /// The overlay of the right arm.
    #[verifier::when_used_as_spec(spec_right_sleeve)]
    pub fn right_sleeve() -> (patch: Patch)
        ensures
            patch == Self::spec_right_sleeve(),
    {
        Patch { x: 44, y: 36, width: 4, height: 12, depth: 4 }
    }

    pub open spec fn spec_slim_right_sleeve() -> Patch {
        Patch { x: 44, y: 36, width: 3, height: 12, depth: 4 }
    }

    /// The overlay of the right arm of a slim skin.
    #[verifier::when_used_as_spec(spec_slim_right_sleeve)]
    pub fn slim_right_sleeve() -> (patch: Patch)
        ensures
            patch == Self::spec_slim_right_sleeve(),
    {
        Patch { x: 44, y: 36, width: 3, height: 12, depth: 4 }
    }

    pub open spec fn spec_left_pants() -> Patch {
        Patch { x: 4, y: 52, width: 4, height: 12, depth: 4 }
    }

    /// The overlay of the left leg.
    #[verifier::when_used_as_spec(spec_left_pants)]
    pub fn left_pants() -> (patch: Patch)
        ensures
            patch == Self::spec_left_pants(),
    {
        Patch { x: 4, y: 52, width: 4, height: 12, depth: 4 }
    }

    pub open spec fn spec_left_sleeve() -> Patch {
        Patch { x: 52, y: 52, width: 4, height: 12, depth: 4 }
    }

    /// The overlay of the left arm.
    #[verifier::when_used_as_spec(spec_left_sleeve)]
    pub fn left_sleeve() -> (patch: Patch)
        ensures
            patch == Self::spec_left_sleeve(),
    {
        Patch { x: 52, y: 52, width: 4, height: 12, depth: 4 }
    }

    pub open spec fn spec_slim_left_sleeve() -> Patch {
        Patch { x: 52, y: 52, width: 3, height: 12, depth: 4 }
    }

    /// The overlay of the left arm of a slim skin.
    #[verifier::when_used_as_spec(spec_slim_left_sleeve)]
    pub fn slim_left_sleeve() -> (patch: Patch)
        ensures
            patch == Self::spec_slim_left_sleeve(),
    {
        Patch { x: 52, y: 52, width: 3, height: 12, depth: 4 }
    }

    /// The extent of the cuboid from its centre, in half pixels: along X,
    /// Y and Z the cuboid reaches `width / 2`, `height / 2` and `depth / 2`
    /// pixels to either side.
    pub open spec fn spec_half_size(&self) -> Vec3 {
        Vec3 { x: self.width as i64, y: self.height as i64, z: self.depth as i64 }
    }

    /// The extent of the cuboid from its centre, in half pixels.
    #[verifier::when_used_as_spec(spec_half_size)]
    pub fn half_size(&self) -> (half: Vec3)
        ensures
            half == self.spec_half_size(),
            half.x == self.width,
            half.y == self.height,
            half.z == self.depth,
    {
        Vec3 { x: self.width as i64, y: self.height as i64, z: self.depth as i64 }
    }

    /// The number of pixels of the rectangle.
    pub open spec fn area(&self) -> int {
        self.width * self.height
    }

    /// Whether the rectangle lies within an image `width` by `height`.
    pub open spec fn within(&self, width: u32, height: u32) -> bool {
        self.x + self.width <= width && self.y + self.height <= height
    }

    /// Whether the pixel (`x`, `y`) of the atlas lies in the rectangle.
    pub open spec fn covers(&self, x: int, y: int) -> bool {
        self.x <= x < self.x + self.width && self.y <= y < self.y + self.height
    }

    /// Whether the rectangle lies within an image `width` by `height`.
    pub fn is_within(&self, width: u32, height: u32) -> (inside: bool)
        ensures
            inside == self.within(width, height),
    {
        self.x as u64 + self.width as u64 <= width as u64 && self.y as u64 + self.height as u64
            <= height as u64
    }

    /// Whether all six faces can be derived from this front face and lie
    /// within an image `width` by `height`: there is room for the left and
    /// top faces before it and for the right and back faces behind it.
    pub open spec fn unfolds_within(&self, width: u32, height: u32) -> bool {
        &&& self.depth <= self.x
        &&& self.depth <= self.y
        &&& self.x + 2 * self.width + self.depth <= width
        &&& self.y + self.height <= height
    }

    /// Whether all six faces can be derived from this front face and lie
    /// within an image `width` by `height`.
    pub fn does_unfold_within(&self, width: u32, height: u32) -> (inside: bool)
        ensures
            inside == self.unfolds_within(width, height),
    {
        self.depth <= self.x && self.depth <= self.y && self.x as u64 + 2 * (self.width as u64)
            + self.depth as u64 <= width as u64 && self.y as u64 + self.height as u64
            <= height as u64
    }

    /// The right face of the cuboid with this front face.
    pub open spec fn right(&self) -> Patch {
        Patch {
            x: (self.x + self.width) as u32,
            y: self.y,
            width: self.depth,
            height: self.height,
            depth: self.width,
        }
    }

    /// The back face of the cuboid with this front face.
    pub open spec fn back(&self) -> Patch {
        Patch {
            x: (self.x + self.width + self.depth) as u32,
            y: self.y,
            width: self.width,
            height: self.height,
            depth: self.depth,
        }
    }

    /// The left face of the cuboid with this front face.
    pub open spec fn left(&self) -> Patch {
        Patch {
            x: (self.x - self.depth) as u32,
            y: self.y,
            width: self.depth,
            height: self.height,
            depth: self.width,
        }
    }

    /// The top face of the cuboid with this front face.
    pub open spec fn top(&self) -> Patch {
        Patch {
            x: self.x,
            y: (self.y - self.depth) as u32,
            width: self.width,
            height: self.depth,
            depth: self.height,
        }
    }

    /// The bottom face of the cuboid with this front face.
    pub open spec fn bottom(&self) -> Patch {
        Patch {
            x: (self.x + self.width) as u32,
            y: (self.y - self.depth) as u32,
            width: self.width,
            height: self.depth,
            depth: self.height,
        }
    }

    /// The face of the cuboid that looks in `direction`.
    pub open spec fn face(&self, direction: Direction) -> Patch {
        match direction {
            Direction::Front => *self,
            Direction::Right => self.right(),
            Direction::Back => self.back(),
            Direction::Left => self.left(),
            Direction::Top => self.top(),
            Direction::Bottom => self.bottom(),
        }
    }

    /// Whether the face that looks in `direction` can be derived: its
    /// corner does not leave the range of the coordinates.
    pub open spec fn has_face(&self, direction: Direction) -> bool {
        match direction {
            Direction::Front => true,
            Direction::Right => self.x + self.width <= u32::MAX,
            Direction::Back => self.x + self.width + self.depth <= u32::MAX,
            Direction::Left => self.depth <= self.x,
            Direction::Top => self.depth <= self.y,
            Direction::Bottom => self.x + self.width <= u32::MAX && self.depth <= self.y,
        }
    }

    /// The right face: it starts where the front face ends, is as wide as
    /// the cuboid is deep, and as deep as the front is wide.
    pub fn as_right(&self) -> (face: Patch)
        requires
            self.has_face(Direction::Right),
        ensures
            face == self.right(),
            face.x == self.x + self.width,
    {
        Patch {
            x: self.x + self.width,
            y: self.y,
            width: self.depth,
            height: self.height,
            depth: self.width,
        }
    }

    /// The back face: it follows the right face and has the size of the
    /// front.
    pub fn as_back(&self) -> (face: Patch)
        requires
            self.has_face(Direction::Back),
        ensures
            face == self.back(),
            face.x == self.x + self.width + self.depth,
    {
        Patch {
            x: self.x + self.width + self.depth,
            y: self.y,
            width: self.width,
            height: self.height,
            depth: self.depth,
        }
    }

    /// The left face: it ends where the front face starts.
    pub fn as_left(&self) -> (face: Patch)
        requires
            self.has_face(Direction::Left),
        ensures
            face == self.left(),
            face.x == self.x - self.depth,
    {
        Patch {
            x: self.x - self.depth,
            y: self.y,
            width: self.depth,
            height: self.height,
            depth: self.width,
        }
    }

    /// The top face: it lies above the front face, as high as the cuboid is
    /// deep.
    pub fn as_top(&self) -> (face: Patch)
        requires
            self.has_face(Direction::Top),
        ensures
            face == self.top(),
            face.y == self.y - self.depth,
    {
        Patch {
            x: self.x,
            y: self.y - self.depth,
            width: self.width,
            height: self.depth,
            depth: self.height,
        }
    }

    /// The bottom face: it lies beside the top face.
    pub fn as_bottom(&self) -> (face: Patch)
        requires
            self.has_face(Direction::Bottom),
        ensures
            face == self.bottom(),
            face.x == self.x + self.width,
            face.y == self.y - self.depth,
    {
        Patch {
            x: self.x + self.width,
            y: self.y - self.depth,
            width: self.width,
            height: self.depth,
            depth: self.height,
        }
    }

    /// The face that looks in `direction`.
    pub fn as_face(&self, direction: Direction) -> (face: Patch)
        requires
            self.has_face(direction),
        ensures
            face == self.face(direction),
    {
        match direction {
            Direction::Front => *self,
            Direction::Right => self.as_right(),
            Direction::Back => self.as_back(),
            Direction::Left => self.as_left(),
            Direction::Top => self.as_top(),
            Direction::Bottom => self.as_bottom(),
        }
    }

    /// A front face whose cuboid unfolds within an image has all six faces,
    /// and each of them lies within the image.
    pub proof fn lemma_unfolded_faces(&self, width: u32, height: u32, direction: Direction)
        requires
            self.unfolds_within(width, height),
        ensures
            self.has_face(direction),
            self.face(direction).within(width, height),
    {
    }

    /// Deriving the right face and then the left face of that leads back to
    /// the front face.
    pub proof fn lemma_left_of_right(&self)
        requires
            self.has_face(Direction::Right),
        ensures
            self.right().has_face(Direction::Left),
            self.right().left() == *self,
    {
    }

    /// The faces of the cuboid are cut from one sheet: side faces are as
    /// high as the front, top and bottom as wide, and opposite faces have
    /// the same size.
    pub proof fn lemma_faces_match(&self)
        ensures
            self.right().height == self.height && self.left().height == self.height
                && self.back().height == self.height,
            self.top().width == self.width && self.bottom().width == self.width,
            self.right().width == self.left().width == self.depth,
            self.top().height == self.bottom().height == self.depth,
            self.back().width == self.width,
    {
    }
}

} // verus!
