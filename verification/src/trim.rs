//! Trim layers: the overlays of the puppet. Where a limb is a solid cuboid,
//! a trim is a loose shell of small squares, one for every fully opaque
//! pixel of the overlay, that float just outside the limb.
//!
//! Lengths in this file are counted in half units. A unit is the edge of
//! one texel and is a little longer than a pixel, 1.1 pixels, so that the
//! shell clears the limb below it. The shell around a cuboid of `w` by `h`
//! by `d` pixels therefore reaches `d` half units in front of the centre.

use vstd::prelude::*;
use crate::atlas::Atlas;
use crate::color::Rgba;
use crate::geometry::{Pose, Quad, Turn, Vec3};
use crate::patch::{Direction, Patch};

verus! {

/// The edge of a texel in half units.
pub const UNIT: i64 = 2;

/// The length of a unit in tenths of a pixel.
pub const UNIT_TENTHS: i64 = 11;

/// The column of the atlas region that the slot `slot` stands for. The
/// slots of a region count its pixels column after column, each column from
/// the top.
pub open spec fn slot_column(region: Patch, slot: int) -> int {
    slot / (region.height as int)
}

/// The row of the atlas region that the slot `slot` stands for.
pub open spec fn slot_row(region: Patch, slot: int) -> int {
    slot % (region.height as int)
}

/// The pixel of the atlas at a slot of a region.
pub open spec fn slot_pixel(atlas: &Atlas, region: Patch, slot: int) -> Rgba {
    atlas.at(region.x + slot_column(region, slot), region.y + slot_row(region, slot))
}

/// Where the texel of the pixel in column `px` and row `py` of a face
/// region starts, in half units about the centre of the cuboid. The texel
/// lies in the plane of its face, half the depth of the face region away
/// from the centre, and reaches one unit from here along both axes of that
/// plane.
pub open spec fn texel_position(region: Patch, direction: Direction, px: int, py: int) -> Vec3 {
    let half_width = region.width as int / 2;
    let half_height = region.height as int / 2;
    let depth = region.depth as int;
    match direction {
        Direction::Front => Vec3 {
            x: (2 * (px - half_width)) as i64,
            y: (2 * (half_height - 1 - py)) as i64,
            z: depth as i64,
        },
        Direction::Right => Vec3 {
            x: depth as i64,
            y: (2 * (half_height - 1 - py)) as i64,
            z: (2 * (half_width - 1 - px)) as i64,
        },
        Direction::Back => Vec3 {
            x: (2 * (half_width - 1 - px)) as i64,
            y: (2 * (half_height - 1 - py)) as i64,
            z: (-depth) as i64,
        },
        Direction::Left => Vec3 {
            x: (-depth) as i64,
            y: (2 * (half_height - 1 - py)) as i64,
            z: (2 * (px - half_width)) as i64,
        },
        Direction::Top => Vec3 {
            x: (2 * (px - half_width)) as i64,
            y: depth as i64,
            z: (2 * (py - half_height)) as i64,
        },
        Direction::Bottom => Vec3 {
            x: (2 * (px - half_width)) as i64,
            y: (-depth) as i64,
            z: (2 * (half_height - 1 - py)) as i64,
        },
    }
}

/// `position` moved by `dx`, `dy` and `dz` units.
pub open spec fn stepped(position: Vec3, dx: int, dy: int, dz: int) -> Vec3 {
    Vec3 {
        x: (position.x + dx * UNIT) as i64,
        y: (position.y + dy * UNIT) as i64,
        z: (position.z + dz * UNIT) as i64,
    }
}

/// The corners of the texel that starts at `position` and lies on the face
/// in `direction`: a square of one unit in the plane of the face, wound so
/// that it is seen from outside.
pub open spec fn texel_corners(position: Vec3, direction: Direction) -> Quad {
    let p = position;
    match direction {
        Direction::Front => Quad::new(p, stepped(p, 1, 0, 0), stepped(p, 1, 1, 0), stepped(p, 0, 1, 0)),
        Direction::Right => Quad::new(stepped(p, 0, 0, 1), p, stepped(p, 0, 1, 0), stepped(p, 0, 1, 1)),
        Direction::Back => Quad::new(stepped(p, 1, 0, 0), p, stepped(p, 0, 1, 0), stepped(p, 1, 1, 0)),
        Direction::Left => Quad::new(p, stepped(p, 0, 0, 1), stepped(p, 0, 1, 1), stepped(p, 0, 1, 0)),
        Direction::Top => Quad::new(stepped(p, 0, 0, 1), stepped(p, 1, 0, 1), stepped(p, 1, 0, 0), p),
        Direction::Bottom => Quad::new(p, stepped(p, 1, 0, 0), stepped(p, 1, 0, 1), stepped(p, 0, 0, 1)),
    }
}

/// Whether a texel can start at `position`: its far corners can be held.
pub open spec fn can_hold_texel(position: Vec3) -> bool {
    &&& position.x + UNIT <= i64::MAX
    &&& position.y + UNIT <= i64::MAX
    &&& position.z + UNIT <= i64::MAX
}

/// One square of a trim layer, in one colour.
#[derive(Clone, Copy, PartialEq, Eq, Debug, Structural)]
pub struct Texel {
    /// The face of the shell that the texel lies on.
    pub direction: Direction,
    /// The corners of the square in half units.
    pub corners: Quad,
    /// The colour of the square in linear light.
    pub color: Rgba,
}

/// The texel for the pixel at `slot` of the face of the shell that looks in
/// `direction`, around the cuboid with the front face `front`.
pub open spec fn texel_at(atlas: &Atlas, front: Patch, direction: Direction, slot: int) -> Texel {
    let region = front.face(direction);
    let position = texel_position(
        region,
        direction,
        slot_column(region, slot),
        slot_row(region, slot),
    );
    Texel {
        direction,
        corners: texel_corners(position, direction),
        color: slot_pixel(atlas, region, slot).linear(),
    }
}

/// The texels of the first `slots` slots of one face of the shell: one for
/// each slot whose pixel is fully opaque, in the order of the slots.
pub open spec fn face_texels(atlas: &Atlas, front: Patch, direction: Direction, slots: int) -> Seq<
    Texel,
>
    decreases slots,
{
    if slots <= 0 {
        Seq::empty()
    } else {
        let before = face_texels(atlas, front, direction, slots - 1);
        if slot_pixel(atlas, front.face(direction), slots - 1).is_opaque() {
            before.push(texel_at(atlas, front, direction, slots - 1))
        } else {
            before
        }
    }
}

/// All texels of one face of the shell.
pub open spec fn whole_face(atlas: &Atlas, front: Patch, direction: Direction) -> Seq<Texel> {
    face_texels(atlas, front, direction, front.face(direction).area())
}

/// All texels of the shell around the cuboid with the front face `front`:
/// those of the front, right, back, left, top and bottom face, in this
/// order.
pub open spec fn layer_texels(atlas: &Atlas, front: Patch) -> Seq<Texel> {
    whole_face(atlas, front, Direction::Front) + whole_face(atlas, front, Direction::Right)
        + whole_face(atlas, front, Direction::Back) + whole_face(atlas, front, Direction::Left)
        + whole_face(atlas, front, Direction::Top) + whole_face(atlas, front, Direction::Bottom)
}

/// The fully opaque pixels of a region of the atlas, as places (`x`, `y`)
/// of the atlas.
pub open spec fn opaque_pixels(atlas: &Atlas, region: Patch) -> Set<(int, int)> {
    Set::new(|place: (int, int)| region.covers(place.0, place.1) && atlas.at(place.0, place.1).is_opaque())
}

/// The slot of a place of the atlas within a region.
pub open spec fn slot_of(region: Patch, place: (int, int)) -> int {
    (place.0 - region.x) * region.height + (place.1 - region.y)
}

/// The fully opaque pixels of a region among its first `slots` slots.
pub open spec fn opaque_pixels_before(atlas: &Atlas, region: Patch, slots: int) -> Set<(int, int)> {
    Set::new(
        |place: (int, int)|
            region.covers(place.0, place.1) && atlas.at(place.0, place.1).is_opaque() && slot_of(
                region,
                place,
            ) < slots,
    )
}

/// A slot of a region stands for a place of the region.
proof fn lemma_slot_in_region(region: Patch, slot: int)
    requires
        0 <= slot < region.area(),
    ensures
        0 <= slot_column(region, slot) < region.width,
        0 <= slot_row(region, slot) < region.height,
        region.covers(region.x + slot_column(region, slot), region.y + slot_row(region, slot)),
{
    let h = region.height as int;
    let w = region.width as int;
    assert(0 < h) by (nonlinear_arith)
        requires
            0 <= slot < w * h,
            0 <= h,
    ;
    assert(0 <= slot / h < w && 0 <= slot % h < h) by (nonlinear_arith)
        requires
            0 <= slot < w * h,
            0 < h,
    ;
}

/// A slot of a region stands for the one place of the region that has
/// this slot.
proof fn lemma_slot_place(region: Patch, slot: int, place: (int, int))
    requires
        0 <= slot < region.area(),
        region.covers(place.0, place.1),
    ensures
        slot_of(region, place) == slot <==> place == (
            region.x + slot_column(region, slot),
            region.y + slot_row(region, slot),
        ),
        0 <= slot_column(region, slot) < region.width,
        0 <= slot_row(region, slot) < region.height,
        0 <= slot_of(region, place) < region.area(),
{
    let h = region.height as int;
    let w = region.width as int;
    let column = place.0 - region.x;
    let row = place.1 - region.y;
    assert(0 < h) by (nonlinear_arith)
        requires
            0 <= slot < w * h,
            0 <= h,
    ;
    assert(0 <= slot / h < w && 0 <= slot % h < h && slot == (slot / h) * h + slot % h)
        by (nonlinear_arith)
        requires
            0 <= slot < w * h,
            0 < h,
    ;
    assert(0 <= column * h + row < w * h) by (nonlinear_arith)
        requires
            0 <= column < w,
            0 <= row < h,
    ;
    if column * h + row == slot {
        assert(column == slot / h && row == slot % h) by (nonlinear_arith)
            requires
                column * h + row == slot,
                0 <= row < h,
                0 <= column,
                0 < h,
        ;
    }
}

/// Among the first slots of a face there are as many texels as there are
/// fully opaque pixels.
proof fn lemma_texels_before(atlas: &Atlas, front: Patch, direction: Direction, slots: int)
    requires
        0 <= slots <= front.face(direction).area(),
    ensures
        opaque_pixels_before(atlas, front.face(direction), slots).finite(),
        face_texels(atlas, front, direction, slots).len() == opaque_pixels_before(
            atlas,
            front.face(direction),
            slots,
        ).len(),
    decreases slots,
{
    let region = front.face(direction);
    let now = opaque_pixels_before(atlas, region, slots);
    if slots == 0 {
        assert forall|place: (int, int)| !now.contains(place) by {
            if region.covers(place.0, place.1) {
                assert(0 <= slot_of(region, place)) by (nonlinear_arith)
                    requires
                        0 <= place.0 - region.x,
                        0 <= place.1 - region.y,
                        0 <= region.height,
                        slot_of(region, place) == (place.0 - region.x) * region.height + (place.1
                            - region.y),
                ;
            }
        }
        assert(now =~= Set::<(int, int)>::empty());
    } else {
        let slot = slots - 1;
        let before = opaque_pixels_before(atlas, region, slot);
        let here = (region.x + slot_column(region, slot), region.y + slot_row(region, slot));
        lemma_texels_before(atlas, front, direction, slot);
        lemma_slot_in_region(region, slot);
        lemma_slot_place(region, slot, here);
        assert(!before.contains(here));
        if slot_pixel(atlas, region, slot).is_opaque() {
            assert forall|place: (int, int)| now.contains(place) <==> before.insert(here).contains(
                place,
            ) by {
                if region.covers(place.0, place.1) {
                    lemma_slot_place(region, slot, place);
                }
            }
            assert(now =~= before.insert(here));
        } else {
            assert forall|place: (int, int)| now.contains(place) <==> before.contains(place) by {
                if region.covers(place.0, place.1) {
                    lemma_slot_place(region, slot, place);
                }
            }
            assert(now =~= before);
        }
    }
}

/// Each face of a shell has exactly one texel for every fully opaque pixel
/// of its region. A pixel that is only nearly opaque gets none.
pub proof fn lemma_texel_count(atlas: &Atlas, front: Patch, direction: Direction)
    ensures
        opaque_pixels(atlas, front.face(direction)).finite(),
        whole_face(atlas, front, direction).len() == opaque_pixels(
            atlas,
            front.face(direction),
        ).len(),
{
    let region = front.face(direction);
    assert(0 <= region.area()) by (nonlinear_arith)
        requires
            region.area() == region.width * region.height,
            0 <= region.width,
            0 <= region.height,
    ;
    lemma_texels_before(atlas, front, direction, region.area());
    assert forall|place: (int, int)|
        opaque_pixels(atlas, region).contains(place) <==> opaque_pixels_before(
            atlas,
            region,
            region.area(),
        ).contains(place) by {
        if region.covers(place.0, place.1) {
            if region.area() > 0 {
                lemma_slot_place(region, 0, place);
            } else {
                assert(false) by (nonlinear_arith)
                    requires
                        region.width * region.height <= 0,
                        0 < region.width,
                        0 < region.height,
                ;
            }
        }
    }
    assert(opaque_pixels(atlas, region) =~= opaque_pixels_before(atlas, region, region.area()));
}

/// A layer has as many texels as the six faces of its shell have fully
/// opaque pixels.
pub proof fn lemma_layer_texel_count(atlas: &Atlas, front: Patch)
    ensures
        layer_texels(atlas, front).len() == opaque_pixels(atlas, front.face(Direction::Front)).len()
            + opaque_pixels(atlas, front.face(Direction::Right)).len() + opaque_pixels(
            atlas,
            front.face(Direction::Back),
        ).len() + opaque_pixels(atlas, front.face(Direction::Left)).len() + opaque_pixels(
            atlas,
            front.face(Direction::Top),
        ).len() + opaque_pixels(atlas, front.face(Direction::Bottom)).len(),
{
    lemma_texel_count(atlas, front, Direction::Front);
    lemma_texel_count(atlas, front, Direction::Right);
    lemma_texel_count(atlas, front, Direction::Back);
    lemma_texel_count(atlas, front, Direction::Left);
    lemma_texel_count(atlas, front, Direction::Top);
    lemma_texel_count(atlas, front, Direction::Bottom);
}

impl Texel {
    /// The texel that starts at `position`, lies on the face in
    /// `direction` and has the colour of `pixel`, decoded to linear light.
    pub fn new(pixel: Rgba, position: Vec3, direction: Direction) -> (texel: Texel)
        requires
            can_hold_texel(position),
        ensures
            texel.direction == direction,
            texel.corners == texel_corners(position, direction),
            texel.color == pixel.linear(),
    {
        let Vec3 { x, y, z } = position;
        let corners = match direction {
            Direction::Front => Quad::new(
                Vec3::new(x, y, z),
                Vec3::new(x + UNIT, y, z),
                Vec3::new(x + UNIT, y + UNIT, z),
                Vec3::new(x, y + UNIT, z),
            ),
            Direction::Right => Quad::new(
                Vec3::new(x, y, z + UNIT),
                Vec3::new(x, y, z),
                Vec3::new(x, y + UNIT, z),
                Vec3::new(x, y + UNIT, z + UNIT),
            ),
            Direction::Back => Quad::new(
                Vec3::new(x + UNIT, y, z),
                Vec3::new(x, y, z),
                Vec3::new(x, y + UNIT, z),
                Vec3::new(x + UNIT, y + UNIT, z),
            ),
            Direction::Left => Quad::new(
                Vec3::new(x, y, z),
                Vec3::new(x, y, z + UNIT),
                Vec3::new(x, y + UNIT, z + UNIT),
                Vec3::new(x, y + UNIT, z),
            ),
            Direction::Top => Quad::new(
                Vec3::new(x, y, z + UNIT),
                Vec3::new(x + UNIT, y, z + UNIT),
                Vec3::new(x + UNIT, y, z),
                Vec3::new(x, y, z),
            ),
            Direction::Bottom => Quad::new(
                Vec3::new(x, y, z),
                Vec3::new(x + UNIT, y, z),
                Vec3::new(x + UNIT, y, z + UNIT),
                Vec3::new(x, y, z + UNIT),
            ),
        };
        Texel { direction, corners, color: pixel.to_linear() }
    }

    /// Where the texel of the pixel in column `px` and row `py` of the face
    /// region `region` starts.
    pub fn position(region: &Patch, direction: Direction, px: u32, py: u32) -> (position: Vec3)
        requires
            px < region.width,
            py < region.height,
        ensures
            position == texel_position(*region, direction, px as int, py as int),
            can_hold_texel(position),
    {
        let half_width = (region.width / 2) as i64;
        let half_height = (region.height / 2) as i64;
        let depth = region.depth as i64;
        let column = px as i64;
        let row = py as i64;
        match direction {
            Direction::Front => Vec3::new(
                2 * (column - half_width),
                2 * (half_height - 1 - row),
                depth,
            ),
            Direction::Right => Vec3::new(
                depth,
                2 * (half_height - 1 - row),
                2 * (half_width - 1 - column),
            ),
            Direction::Back => Vec3::new(
                2 * (half_width - 1 - column),
                2 * (half_height - 1 - row),
                -depth,
            ),
            Direction::Left => Vec3::new(
                -depth,
                2 * (half_height - 1 - row),
                2 * (column - half_width),
            ),
            Direction::Top => Vec3::new(
                2 * (column - half_width),
                depth,
                2 * (row - half_height),
            ),
            Direction::Bottom => Vec3::new(
                2 * (column - half_width),
                -depth,
                2 * (half_height - 1 - row),
            ),
        }
    }
}

/// An overlay of the puppet: a shell of texels that move together.
pub struct Trim {
    /// A label for the layer.
    pub name: String,
    /// The texels, face after face.
    pub texels: Vec<Texel>,
    /// Where the centre of the shell rests in the puppet, in tenths of a
    /// pixel.
    pub offset: Vec3,
    /// How the shell is turned away from where it rests.
    pub pose: Pose,
    /// The colour that every texel is multiplied with.
    pub tint: Rgba,
}

impl Trim {
    /// Whether the layer is the shell around the front face `patch` of the
    /// atlas, placed at `offset`.
    #[verifier::opaque]
    pub open spec fn built_from(&self, atlas: &Atlas, name: Seq<char>, patch: Patch, offset: Vec3)
        -> bool {
        &&& self.name@ == name
        &&& self.offset == offset
        &&& self.texels@ == layer_texels(atlas, patch)
    }

    /// Whether the layer is untouched: it rests and has no tint.
    pub open spec fn is_plain(&self) -> bool {
        self.pose.is(Vec3::zero(), Seq::empty()) && self.tint == Rgba::white()
    }

    /// Whether the layer has the body of `other`: the same label, texels
    /// and offset. Pose and tint may differ.
    pub open spec fn same_body(&self, other: &Trim) -> bool {
        self.name == other.name && self.texels == other.texels && self.offset == other.offset
    }

    /// A layer that is built from the atlas has the label and the offset
    /// that it was built with.
    pub proof fn lemma_built_fields(&self, atlas: &Atlas, name: Seq<char>, patch: Patch, offset: Vec3)
        requires
            self.built_from(atlas, name, patch, offset),
        ensures
            self.name@ == name,
            self.offset == offset,
    {
        reveal(Trim::built_from);
    }

    /// A layer with the label and the texels of one that is built from the
    /// atlas is built from it too, at its own offset.
    pub proof fn lemma_built_elsewhere(
        &self,
        other: &Trim,
        atlas: &Atlas,
        name: Seq<char>,
        patch: Patch,
        offset: Vec3,
    )
        requires
            other.built_from(atlas, name, patch, offset),
            self.name == other.name,
            self.texels == other.texels,
        ensures
            self.built_from(atlas, name, patch, self.offset),
    {
        reveal(Trim::built_from);
    }

    /// A layer that is built from the atlas has one texel for every fully
    /// opaque pixel of the six faces of its shell, and no other.
    pub proof fn lemma_built_texels(&self, atlas: &Atlas, name: Seq<char>, patch: Patch, offset: Vec3)
        requires
            self.built_from(atlas, name, patch, offset),
        ensures
            self.texels@ == layer_texels(atlas, patch),
            self.texels@.len() == opaque_pixels(atlas, patch.face(Direction::Front)).len()
                + opaque_pixels(atlas, patch.face(Direction::Right)).len() + opaque_pixels(
                atlas,
                patch.face(Direction::Back),
            ).len() + opaque_pixels(atlas, patch.face(Direction::Left)).len() + opaque_pixels(
                atlas,
                patch.face(Direction::Top),
            ).len() + opaque_pixels(atlas, patch.face(Direction::Bottom)).len(),
    {
        reveal(Trim::built_from);
        lemma_layer_texel_count(atlas, patch);
    }

    /// Appends the texels of the face of the shell that looks in
    /// `direction`: the pixels of the face region are visited column after
    /// column, and each fully opaque one gets a texel.
    fn push_face(texels: &mut Vec<Texel>, atlas: &Atlas, front: Patch, direction: Direction)
        requires
            front.has_face(direction),
            atlas.holds(front.face(direction)),
        ensures
            final(texels)@ == old(texels)@ + whole_face(atlas, front, direction),
    {
        let region = front.as_face(direction);
        let height = region.height as u64;
        assert(0 <= region.width * region.height <= 0xffff_ffff * 0xffff_ffff)
            by (nonlinear_arith)
            requires
                0 <= region.width <= 0xffff_ffff,
                0 <= region.height <= 0xffff_ffff,
        ;
        let area: u64 = (region.width as u64) * height;
        let mut slot: u64 = 0;
        while slot < area
            invariant
                region == front.face(direction),
                atlas.holds(region),
                height == region.height,
                area == region.area(),
                0 <= slot <= area,
                texels@ == old(texels)@ + face_texels(atlas, front, direction, slot as int),
            decreases area - slot,
        {
            assert(slot / height < region.width && slot % height < height) by (nonlinear_arith)
                requires
                    0 <= slot < region.width * height,
                    0 < height,
            ;
            let px = (slot / height) as u32;
            let py = (slot % height) as u32;
            let pixel = atlas.pixel(px + region.x, py + region.y);
            if pixel.is_opaque() {
                let position = Texel::position(&region, direction, px, py);
                texels.push(Texel::new(pixel, position, direction));
            }
            proof {
                let before = face_texels(atlas, front, direction, slot as int);
                let after = face_texels(atlas, front, direction, slot + 1);
                if pixel.is_opaque() {
                    assert(after == before.push(texel_at(atlas, front, direction, slot as int)));
                    assert(old(texels)@ + after =~= (old(texels)@ + before).push(
                        texel_at(atlas, front, direction, slot as int),
                    ));
                } else {
                    assert(after == before);
                }
            }
            slot += 1;
        }
    }

    /// Builds the shell around the cuboid with the front face `patch` and
    /// places its centre at `offset`, given in tenths of a pixel. The
    /// layer rests and is not tinted.
    pub fn load(atlas: &Atlas, name: String, patch: Patch, offset: Vec3) -> (trim: Trim)
        requires
            atlas.holds_cuboid(patch),
        ensures
            trim.built_from(atlas, name@, patch, offset),
            trim.is_plain(),
    {
        proof {
            patch.lemma_unfolded_faces(atlas.width(), atlas.height(), Direction::Front);
            patch.lemma_unfolded_faces(atlas.width(), atlas.height(), Direction::Right);
            patch.lemma_unfolded_faces(atlas.width(), atlas.height(), Direction::Back);
            patch.lemma_unfolded_faces(atlas.width(), atlas.height(), Direction::Left);
            patch.lemma_unfolded_faces(atlas.width(), atlas.height(), Direction::Top);
            patch.lemma_unfolded_faces(atlas.width(), atlas.height(), Direction::Bottom);
        }
        reveal(Trim::built_from);
        let mut texels: Vec<Texel> = Vec::new();
        Self::push_face(&mut texels, atlas, patch, Direction::Front);
        Self::push_face(&mut texels, atlas, patch, Direction::Right);
        Self::push_face(&mut texels, atlas, patch, Direction::Back);
        Self::push_face(&mut texels, atlas, patch, Direction::Left);
        Self::push_face(&mut texels, atlas, patch, Direction::Top);
        Self::push_face(&mut texels, atlas, patch, Direction::Bottom);
        assert(texels@ =~= layer_texels(atlas, patch));
        Trim { name, texels, offset, pose: Pose::rest(), tint: Rgba::white() }
    }

    /// Puts the layer into `pose`, whatever its pose was.
    pub fn set_transformation(&mut self, pose: Pose)
        ensures
            final(self).pose == pose,
            final(self).same_body(old(self)),
            final(self).tint == old(self).tint,
    {
        self.pose = pose;
    }

    /// Turns the layer about `pivot`, given in tenths of a pixel, by each of
    /// `axes_angles` in order. The turn starts from where the layer rests,
    /// not from its pose before.
    pub fn rotate_around(&mut self, pivot: Vec3, axes_angles: &[Turn])
        ensures
            final(self).pose.is(pivot, axes_angles@),
            final(self).same_body(old(self)),
            final(self).tint == old(self).tint,
    {
        self.set_transformation(Pose::around(pivot, axes_angles));
    }

    /// Tints the layer red; see [`Rgba::red`].
    pub fn apply_red(&mut self, saturation: u8)
        ensures
            final(self).tint == Rgba::red(saturation),
            final(self).same_body(old(self)),
            final(self).pose == old(self).pose,
    {
        self.apply_color(Rgba::red(saturation))
    }

    /// Tints the layer with `color`.
    pub fn apply_color(&mut self, color: Rgba)
        ensures
            final(self).tint == color,
            final(self).same_body(old(self)),
            final(self).pose == old(self).pose,
    {
        self.tint = color;
    }
}

} // verus!
