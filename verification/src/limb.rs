//! Limbs: the solid cuboids of the puppet, each with six textured faces.

use vstd::prelude::*;
use crate::atlas::Atlas;
use crate::color::Rgba;
use crate::geometry::{Pose, Quad, Turn, Vec3};
use crate::patch::{Direction, Patch};

verus! {

/// The pixels of `region` in linear light, row after row from the top.
pub open spec fn sampled(atlas: &Atlas, region: Patch) -> Seq<Rgba> {
    Seq::new(
        region.area() as nat,
        |k: int|
            atlas.at(region.x + k % (region.width as int), region.y + k / (region.width as int))
                .linear(),
    )
}

/// The four corners, in half pixels, of the face of a cuboid that looks in
/// `direction`. The cuboid is centred at the origin and reaches `half` to
/// either side.
pub open spec fn face_corners(half: Vec3, direction: Direction) -> Quad {
    let (x, y, z) = (half.x, half.y, half.z);
    let (nx, ny, nz) = ((-x) as i64, (-y) as i64, (-z) as i64);
    match direction {
        Direction::Front => Quad::new(
            Vec3 { x: nx, y: ny, z },
            Vec3 { x, y: ny, z },
            Vec3 { x, y, z },
            Vec3 { x: nx, y, z },
        ),
        Direction::Right => Quad::new(
            Vec3 { x, y: ny, z },
            Vec3 { x, y: ny, z: nz },
            Vec3 { x, y, z: nz },
            Vec3 { x, y, z },
        ),
        Direction::Back => Quad::new(
            Vec3 { x, y: ny, z: nz },
            Vec3 { x: nx, y: ny, z: nz },
            Vec3 { x: nx, y, z: nz },
            Vec3 { x, y, z: nz },
        ),
        Direction::Left => Quad::new(
            Vec3 { x: nx, y: ny, z: nz },
            Vec3 { x: nx, y: ny, z },
            Vec3 { x: nx, y, z },
            Vec3 { x: nx, y, z: nz },
        ),
        Direction::Top => Quad::new(
            Vec3 { x: nx, y, z },
            Vec3 { x, y, z },
            Vec3 { x, y, z: nz },
            Vec3 { x: nx, y, z: nz },
        ),
        Direction::Bottom => Quad::new(
            Vec3 { x: nx, y: ny, z: nz },
            Vec3 { x, y: ny, z: nz },
            Vec3 { x, y: ny, z },
            Vec3 { x: nx, y: ny, z },
        ),
    }
}

/// One face of a limb: a rectangle in space with a piece of the atlas laid
/// on it.
pub struct Face {
    /// The side of the cuboid that the face closes.
    pub direction: Direction,
    /// The rectangle of the atlas that the face shows.
    pub region: Patch,
    /// The corners of the face in half pixels, about the centre of the
    /// cuboid.
    pub corners: Quad,
    /// The texture: the pixels of `region` in linear light, row after row.
    pub pixels: Vec<Rgba>,
}

impl Face {
    /// Whether the face has the given corners and shows `region` of the
    /// atlas, decoded to linear light.
    pub open spec fn shows(
        &self,
        atlas: &Atlas,
        region: Patch,
        corners: Quad,
        direction: Direction,
    ) -> bool {
        &&& self.direction == direction
        &&& self.region == region
        &&& self.corners == corners
        &&& self.pixels@ == sampled(atlas, region)
    }

    /// Whether this is the face in `direction` of the cuboid with the front
    /// face `front`.
    pub open spec fn is_face_of(&self, atlas: &Atlas, front: Patch, direction: Direction) -> bool {
        self.shows(
            atlas,
            front.face(direction),
            face_corners(front.spec_half_size(), direction),
            direction,
        )
    }

    /// The face with the given corners that shows `region` of the atlas.
    /// Every pixel of the region is copied; its colour channels are decoded
    /// to linear light and its opacity is kept.
    pub fn new(atlas: &Atlas, region: Patch, corners: Quad, direction: Direction) -> (face: Face)
        requires
            atlas.holds(region),
        ensures
            face.shows(atlas, region, corners, direction),
    {
        let mut pixels: Vec<Rgba> = Vec::new();
        let width = region.width as u64;
        assert(0 <= region.width * region.height <= 0xffff_ffff * 0xffff_ffff)
            by (nonlinear_arith)
            requires
                0 <= region.width <= 0xffff_ffff,
                0 <= region.height <= 0xffff_ffff,
        ;
        let area: u64 = width * (region.height as u64);
        let mut k: u64 = 0;
        while k < area
            invariant
                atlas.holds(region),
                width == region.width,
                area == region.area(),
                0 <= k <= area,
                pixels@.len() == k,
                forall|n: int| 0 <= n < k ==> #[trigger] pixels@[n] == sampled(atlas, region)[n],
            decreases area - k,
        {
            assert(k / width < region.height && k % width < width) by (nonlinear_arith)
                requires
                    0 <= k < width * region.height,
                    0 < width,
            ;
            let column = (k % width) as u32;
            let row = (k / width) as u32;
            let pixel = atlas.pixel(region.x + column, region.y + row);
            pixels.push(pixel.to_linear());
            k += 1;
        }
        assert(pixels@ =~= sampled(atlas, region));
        Face { direction, region, corners, pixels }
    }

    /// The front face of the cuboid with the front face `patch`.
    pub fn new_front(atlas: &Atlas, patch: Patch) -> (face: Face)
        requires
            atlas.holds(patch),
        ensures
            face.is_face_of(atlas, patch, Direction::Front),
    {
        let Vec3 { x, y, z } = patch.half_size();
        let positions = Quad::new(
            Vec3::new(-x, -y, z),
            Vec3::new(x, -y, z),
            Vec3::new(x, y, z),
            Vec3::new(-x, y, z),
        );
        Self::new(atlas, patch, positions, Direction::Front)
    }

    /// The right face of the cuboid with the front face `patch`.
    pub fn new_right(atlas: &Atlas, patch: Patch) -> (face: Face)
        requires
            patch.has_face(Direction::Right),
            atlas.holds(patch.right()),
        ensures
            face.is_face_of(atlas, patch, Direction::Right),
    {
        let Vec3 { x, y, z } = patch.half_size();
        let positions = Quad::new(
            Vec3::new(x, -y, z),
            Vec3::new(x, -y, -z),
            Vec3::new(x, y, -z),
            Vec3::new(x, y, z),
        );
        Self::new(atlas, patch.as_right(), positions, Direction::Right)
    }

    /// The back face of the cuboid with the front face `patch`.
    pub fn new_back(atlas: &Atlas, patch: Patch) -> (face: Face)
        requires
            patch.has_face(Direction::Back),
            atlas.holds(patch.back()),
        ensures
            face.is_face_of(atlas, patch, Direction::Back),
    {
        let Vec3 { x, y, z } = patch.half_size();
        let positions = Quad::new(
            Vec3::new(x, -y, -z),
            Vec3::new(-x, -y, -z),
            Vec3::new(-x, y, -z),
            Vec3::new(x, y, -z),
        );
        Self::new(atlas, patch.as_back(), positions, Direction::Back)
    }

    /// The left face of the cuboid with the front face `patch`.
    pub fn new_left(atlas: &Atlas, patch: Patch) -> (face: Face)
        requires
            patch.has_face(Direction::Left),
            atlas.holds(patch.left()),
        ensures
            face.is_face_of(atlas, patch, Direction::Left),
    {
        let Vec3 { x, y, z } = patch.half_size();
        let positions = Quad::new(
            Vec3::new(-x, -y, -z),
            Vec3::new(-x, -y, z),
            Vec3::new(-x, y, z),
            Vec3::new(-x, y, -z),
        );
        Self::new(atlas, patch.as_left(), positions, Direction::Left)
    }

    /// The top face of the cuboid with the front face `patch`.
    pub fn new_top(atlas: &Atlas, patch: Patch) -> (face: Face)
        requires
            patch.has_face(Direction::Top),
            atlas.holds(patch.top()),
        ensures
            face.is_face_of(atlas, patch, Direction::Top),
    {
        let Vec3 { x, y, z } = patch.half_size();
        let positions = Quad::new(
            Vec3::new(-x, y, z),
            Vec3::new(x, y, z),
            Vec3::new(x, y, -z),
            Vec3::new(-x, y, -z),
        );
        Self::new(atlas, patch.as_top(), positions, Direction::Top)
    }

    /// The bottom face of the cuboid with the front face `patch`.
    pub fn new_bottom(atlas: &Atlas, patch: Patch) -> (face: Face)
        requires
            patch.has_face(Direction::Bottom),
            atlas.holds(patch.bottom()),
        ensures
            face.is_face_of(atlas, patch, Direction::Bottom),
    {
        let Vec3 { x, y, z } = patch.half_size();
        let positions = Quad::new(
            Vec3::new(-x, -y, -z),
            Vec3::new(x, -y, -z),
            Vec3::new(x, -y, z),
            Vec3::new(-x, -y, z),
        );
        Self::new(atlas, patch.as_bottom(), positions, Direction::Bottom)
    }
}

/// A rigid cuboid of the puppet: six faces that move together.
pub struct Limb {
    /// A label for the limb.
    pub name: String,
    /// The faces in the order front, right, back, left, top, bottom.
    pub faces: [Face; 6],
    /// Where the centre of the limb rests in the puppet, in tenths of a
    /// pixel.
    pub offset: Vec3,
    /// How the limb is turned away from where it rests.
    pub pose: Pose,
    /// The colour that every face is multiplied with.
    pub tint: Rgba,
}

impl Limb {
    /// Whether the limb is the cuboid around the front face `patch` of the
    /// atlas, placed at `offset`.
    #[verifier::opaque]
    pub open spec fn built_from(&self, atlas: &Atlas, name: Seq<char>, patch: Patch, offset: Vec3)
        -> bool {
        &&& self.name@ == name
        &&& self.offset == offset
        &&& forall|i: int|
            0 <= i < 6 ==> (#[trigger] self.faces[i]).is_face_of(atlas, patch, Direction::at(i))
    }

    /// Whether the limb is untouched: it rests and has no tint.
    pub open spec fn is_plain(&self) -> bool {
        self.pose.is(Vec3::zero(), Seq::empty()) && self.tint == Rgba::white()
    }

    /// Whether the limb has the body of `other`: the same label, faces and
    /// offset. Pose and tint may differ.
    pub open spec fn same_body(&self, other: &Limb) -> bool {
        self.name == other.name && self.faces == other.faces && self.offset == other.offset
    }

    /// A limb that is built from the atlas has the label and the offset that
    /// it was built with.
    pub proof fn lemma_built_fields(&self, atlas: &Atlas, name: Seq<char>, patch: Patch, offset: Vec3)
        requires
            self.built_from(atlas, name, patch, offset),
        ensures
            self.name@ == name,
            self.offset == offset,
    {
        reveal(Limb::built_from);
    }

    /// A limb that is built from the atlas has the six faces of the cuboid
    /// around its front face, each with the texture of its region.
    pub proof fn lemma_built_faces(
        &self,
        atlas: &Atlas,
        name: Seq<char>,
        patch: Patch,
        offset: Vec3,
        direction: Direction,
    )
        requires
            self.built_from(atlas, name, patch, offset),
        ensures
            self.faces[direction.index() as int].is_face_of(atlas, patch, direction),
    {
        reveal(Limb::built_from);
        assert(Direction::at(direction.index() as int) == direction);
    }

    /// A limb with the label and the faces of one that is built from the
    /// atlas is built from it too, at its own offset.
    pub proof fn lemma_built_elsewhere(
        &self,
        other: &Limb,
        atlas: &Atlas,
        name: Seq<char>,
        patch: Patch,
        offset: Vec3,
    )
        requires
            other.built_from(atlas, name, patch, offset),
            self.name == other.name,
            self.faces == other.faces,
        ensures
            self.built_from(atlas, name, patch, self.offset),
    {
        reveal(Limb::built_from);
    }

    /// Builds the cuboid around the front face `patch` and places its centre
    /// at `offset`, given in tenths of a pixel. The limb rests and is
    /// not tinted.
    pub fn load(atlas: &Atlas, name: String, patch: Patch, offset: Vec3) -> (limb: Limb)
        requires
            atlas.holds_cuboid(patch),
        ensures
            limb.built_from(atlas, name@, patch, offset),
            limb.is_plain(),
    {
        proof {
            patch.lemma_unfolded_faces(atlas.width(), atlas.height(), Direction::Front);
            patch.lemma_unfolded_faces(atlas.width(), atlas.height(), Direction::Right);
            patch.lemma_unfolded_faces(atlas.width(), atlas.height(), Direction::Back);
            patch.lemma_unfolded_faces(atlas.width(), atlas.height(), Direction::Left);
            patch.lemma_unfolded_faces(atlas.width(), atlas.height(), Direction::Top);
            patch.lemma_unfolded_faces(atlas.width(), atlas.height(), Direction::Bottom);
        }
        reveal(Limb::built_from);
        let mut limb = Limb {
            name,
            faces: [
                Face::new_front(atlas, patch),
                Face::new_right(atlas, patch),
                Face::new_back(atlas, patch),
                Face::new_left(atlas, patch),
                Face::new_top(atlas, patch),
                Face::new_bottom(atlas, patch),
            ],
            offset,
            pose: Pose::rest(),
            tint: Rgba::white(),
        };
        limb.set_transformation(Pose::rest());
        limb
    }

    /// Puts the limb into `pose`, whatever its pose was.
    pub fn set_transformation(&mut self, pose: Pose)
        ensures
            final(self).pose == pose,
            final(self).same_body(old(self)),
            final(self).tint == old(self).tint,
    {
        self.pose = pose;
    }

    /// Turns the limb about `pivot`, given in tenths of a pixel, by each of
    /// `axes_angles` in order. The turn starts from where the limb rests,
    /// not from its pose before, so calling this twice is the same as
    /// calling it once.
    pub fn rotate_around(&mut self, pivot: Vec3, axes_angles: &[Turn])
        ensures
            final(self).pose.is(pivot, axes_angles@),
            final(self).same_body(old(self)),
            final(self).tint == old(self).tint,
    {
        self.set_transformation(Pose::around(pivot, axes_angles));
    }

    /// Tints the limb red; see [`Rgba::red`].
    pub fn apply_red(&mut self, saturation: u8)
        ensures
            final(self).tint == Rgba::red(saturation),
            final(self).same_body(old(self)),
            final(self).pose == old(self).pose,
    {
        self.apply_color(Rgba::red(saturation))
    }

    /// Tints the limb with `color`.
    pub fn apply_color(&mut self, color: Rgba)
        ensures
            final(self).tint == color,
            final(self).same_body(old(self)),
            final(self).pose == old(self).pose,
    {
        self.tint = color;
    }
}

} // verus!
