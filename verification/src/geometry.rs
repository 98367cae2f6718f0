//! Plain values that describe where the parts of a puppet stand and how they
//! are turned: integer vectors, axes, angles and poses.
//!
//! Nothing here is a floating-point number. Lengths are counted in a unit
//! that each user of [`Vec3`] names, and angles are kept as exact fractions
//! of a degree, so that whoever draws the puppet can convert once, at the
//! very end.

use vstd::prelude::*;

verus! {

/// A vector of three integers. The unit of length is named where the vector
/// is used: half pixels for the corners of a face, half texel units for the
/// corners of a texel, tenths of a pixel for offsets and pivots.
#[derive(Clone, Copy, PartialEq, Eq, Debug, Structural)]
pub struct Vec3 {
    pub x: i64,
    pub y: i64,
    pub z: i64,
}

impl Vec3 {
    pub open spec fn spec_new(x: i64, y: i64, z: i64) -> Vec3 {
        Vec3 { x, y, z }
    }

    #[verifier::when_used_as_spec(spec_new)]
    pub fn new(x: i64, y: i64, z: i64) -> (v: Vec3)
        ensures
            v == Self::spec_new(x, y, z),
    {
        Vec3 { x, y, z }
    }

    pub open spec fn spec_zero() -> Vec3 {
        Vec3 { x: 0, y: 0, z: 0 }
    }

    /// The vector whose coordinates are all zero.
    #[verifier::when_used_as_spec(spec_zero)]
    pub fn zero() -> (v: Vec3)
        ensures
            v == Self::spec_zero(),
    {
        Vec3 { x: 0, y: 0, z: 0 }
    }

    /// The sum of two vectors, coordinate by coordinate.
    pub open spec fn plus(self, other: Vec3) -> Vec3
        recommends
            self.can_add(other),
    {
        Vec3 {
            x: (self.x + other.x) as i64,
            y: (self.y + other.y) as i64,
            z: (self.z + other.z) as i64,
        }
    }

    /// Whether the sum of the two vectors can be held.
    pub open spec fn can_add(self, other: Vec3) -> bool {
        &&& i64::MIN <= self.x + other.x <= i64::MAX
        &&& i64::MIN <= self.y + other.y <= i64::MAX
        &&& i64::MIN <= self.z + other.z <= i64::MAX
    }

    /// This vector moved by `other`.
    pub fn moved_by(self, other: Vec3) -> (sum: Vec3)
        requires
            self.can_add(other),
        ensures
            sum == self.plus(other),
            sum.x == self.x + other.x,
            sum.y == self.y + other.y,
            sum.z == self.z + other.z,
    {
        Vec3 { x: self.x + other.x, y: self.y + other.y, z: self.z + other.z }
    }
}

/// The four corners of a flat rectangle in space, named by the corner of the
/// texture that is laid on each.
#[derive(Clone, Copy, PartialEq, Eq, Debug, Structural)]
pub struct Quad {
    pub bottom_left: Vec3,
    pub bottom_right: Vec3,
    pub top_right: Vec3,
    pub top_left: Vec3,
}

impl Quad {
    pub open spec fn spec_new(
        bottom_left: Vec3,
        bottom_right: Vec3,
        top_right: Vec3,
        top_left: Vec3,
    ) -> Quad {
        Quad { bottom_left, bottom_right, top_right, top_left }
    }

    #[verifier::when_used_as_spec(spec_new)]
    pub fn new(bottom_left: Vec3, bottom_right: Vec3, top_right: Vec3, top_left: Vec3) -> (quad:
        Quad)
        ensures
            quad == Self::spec_new(bottom_left, bottom_right, top_right, top_left),
    {
        Quad { bottom_left, bottom_right, top_right, top_left }
    }

    /// The corners in the order in which they are drawn: bottom left,
    /// bottom right, top right, top left.
    pub fn corners(&self) -> (list: [Vec3; 4])
        ensures
            list@ == seq![self.bottom_left, self.bottom_right, self.top_right, self.top_left],
    {
        let list = [self.bottom_left, self.bottom_right, self.top_right, self.top_left];
        assert(list@ =~= seq![
            self.bottom_left,
            self.bottom_right,
            self.top_right,
            self.top_left,
        ]);
        list
    }
}

/// One of the six signed coordinate axes, as the axis of a rotation.
#[derive(Clone, Copy, PartialEq, Eq, Debug, Structural)]
pub enum Axis {
    X,
    Y,
    Z,
    NegX,
    NegY,
    NegZ,
}

impl Axis {
    /// The unit vector along the axis.
    pub open spec fn direction(self) -> Vec3 {
        match self {
            Axis::X => Vec3 { x: 1, y: 0, z: 0 },
            Axis::Y => Vec3 { x: 0, y: 1, z: 0 },
            Axis::Z => Vec3 { x: 0, y: 0, z: 1 },
            Axis::NegX => Vec3 { x: -1i64, y: 0, z: 0 },
            Axis::NegY => Vec3 { x: 0, y: -1i64, z: 0 },
            Axis::NegZ => Vec3 { x: 0, y: 0, z: -1i64 },
        }
    }

    /// The unit vector along the axis.
    pub fn vector(self) -> (v: Vec3)
        ensures
            v == self.direction(),
    {
        match self {
            Axis::X => Vec3 { x: 1, y: 0, z: 0 },
            Axis::Y => Vec3 { x: 0, y: 1, z: 0 },
            Axis::Z => Vec3 { x: 0, y: 0, z: 1 },
            Axis::NegX => Vec3 { x: -1, y: 0, z: 0 },
            Axis::NegY => Vec3 { x: 0, y: -1, z: 0 },
            Axis::NegZ => Vec3 { x: 0, y: 0, z: -1 },
        }
    }
}

/// An angle of `steps * span / parts` degrees: `steps` steps of a span of
/// `span` degrees that is cut into `parts` equal parts. A whole number of
/// degrees has one part and one step.
#[derive(Clone, Copy, PartialEq, Eq, Debug, Structural)]
pub struct Angle {
    pub span: i32,
    pub parts: u32,
    pub steps: u32,
}

impl Angle {
    pub open spec fn spec_degrees(degrees: i32) -> Angle {
        Angle { span: degrees, parts: 1, steps: 1 }
    }

    /// The angle of a whole number of degrees.
    #[verifier::when_used_as_spec(spec_degrees)]
    pub fn degrees(degrees: i32) -> (angle: Angle)
        ensures
            angle == Self::spec_degrees(degrees),
    {
        Angle { span: degrees, parts: 1, steps: 1 }
    }

    /// The angle, in degrees, is `numerator() / denominator()`.
    pub open spec fn numerator(self) -> int {
        self.span * self.steps
    }

    /// See [`Angle::numerator`].
    pub open spec fn denominator(self) -> int {
        self.parts as int
    }

    /// Whether the angle is a number at all: its span is cut into at least
    /// one part.
    pub open spec fn wf(self) -> bool {
        self.parts >= 1
    }

    /// Whether the two angles are the same number of degrees.
    pub open spec fn same_as(self, other: Angle) -> bool {
        self.numerator() * other.denominator() == other.numerator() * self.denominator()
    }
}

/// One rotation: about an axis, by an angle.
#[derive(Clone, Copy, PartialEq, Eq, Debug, Structural)]
pub struct Turn {
    pub axis: Axis,
    pub angle: Angle,
}

impl Turn {
    pub open spec fn spec_new(axis: Axis, degrees: i32) -> Turn {
        Turn { axis, angle: Angle::spec_degrees(degrees) }
    }

    /// A turn about `axis` by a whole number of degrees.
    #[verifier::when_used_as_spec(spec_new)]
    pub fn new(axis: Axis, degrees: i32) -> (turn: Turn)
        ensures
            turn == Self::spec_new(axis, degrees),
    {
        Turn { axis, angle: Angle::degrees(degrees) }
    }
}

/// How a part is moved away from where it rests: it is turned about the
/// point `pivot` (in tenths of a pixel) by `turns`, the first turn of the
/// list being the outermost. The transformation is the shift to the
/// pivot, times the rotations in order, times the shift back. With no
/// turns the part rests.
///
/// A pose is absolute. It says where the part is, not how it got there, and
/// setting one forgets the pose before.
pub struct Pose {
    pub pivot: Vec3,
    pub turns: Vec<Turn>,
}

impl Pose {
    /// Whether the part rests: nothing turns it.
    pub open spec fn is_rest(&self) -> bool {
        self.turns@.len() == 0
    }

    /// Whether this is the pose that turns about `pivot` by `turns`.
    pub open spec fn is(&self, pivot: Vec3, turns: Seq<Turn>) -> bool {
        self.pivot == pivot && self.turns@ == turns
    }

    /// The pose of a part that rests, with its pivot at the origin.
    pub fn rest() -> (pose: Pose)
        ensures
            pose.is(Vec3::zero(), Seq::empty()),
            pose.is_rest(),
    {
        Pose { pivot: Vec3::zero(), turns: Vec::new() }
    }

    /// The pose that turns about `pivot` by each of `turns` in order.
    pub fn around(pivot: Vec3, turns: &[Turn]) -> (pose: Pose)
        ensures
            pose.is(pivot, turns@),
    {
        let mut list: Vec<Turn> = Vec::new();
        let mut i: usize = 0;
        while i < turns.len()
            invariant
                0 <= i <= turns@.len(),
                list@ == turns@.subrange(0, i as int),
            decreases turns@.len() - i,
        {
            list.push(turns[i]);
            proof {
                assert(turns@.subrange(0, i as int).push(turns@[i as int]) =~= turns@.subrange(
                    0,
                    i + 1,
                ));
            }
            i += 1;
        }
        proof {
            assert(turns@.subrange(0, turns@.len() as int) =~= turns@);
        }
        Pose { pivot, turns: list }
    }

    /// A copy of this pose.
    pub fn copy(&self) -> (pose: Pose)
        ensures
            pose.is(self.pivot, self.turns@),
    {
        Self::around(self.pivot, self.turns.as_slice())
    }
}

} // verus!
