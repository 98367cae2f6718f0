//! The puppet: six limbs and six trim layers, and the poses it can strike.
//!
//! Offsets and pivots are counted in tenths of a pixel. Every pose is
//! absolute: an operation says where each part it names is afterwards, and
//! the pose that a part had before never shows in the result.

use vstd::prelude::*;
use vstd::string::StringExecFns;
use crate::atlas::Atlas;
use crate::color::Rgba;
use crate::geometry::{Angle, Axis, Pose, Turn, Vec3};
use crate::limb::Limb;
use crate::patch::Patch;
use crate::trim::Trim;

verus! {

/// The place of the head among the limbs.
pub const HEAD: usize = 0;

/// The place of the torso among the limbs.
pub const TORSO: usize = 1;

/// The place of the right leg among the limbs.
pub const RIGHT_LEG: usize = 2;

/// The place of the right arm among the limbs.
pub const RIGHT_ARM: usize = 3;

/// The place of the left leg among the limbs.
pub const LEFT_LEG: usize = 4;

/// The place of the left arm among the limbs.
pub const LEFT_ARM: usize = 5;

/// The place of the helmet among the trim layers.
pub const HELMET: usize = 0;

/// The place of the shirt among the trim layers.
pub const SHIRT: usize = 1;

/// The place of the right trouser leg among the trim layers.
pub const RIGHT_PANTS: usize = 2;

/// The place of the right sleeve among the trim layers.
pub const RIGHT_SLEEVE: usize = 3;

/// The place of the left trouser leg among the trim layers.
pub const LEFT_PANTS: usize = 4;

/// The place of the left sleeve among the trim layers.
pub const LEFT_SLEEVE: usize = 5;

/// The opacity below which the probed pixel counts as empty.
pub const SLIM_PROBE_ALPHA: u8 = 10;

/// The column of the pixel that tells the two arm widths apart. It lies in
/// the fourth column of the back of the right arm, which a slim skin
/// leaves empty.
pub const SLIM_PROBE_X: u32 = 55;

/// The row of the pixel that tells the two arm widths apart.
pub const SLIM_PROBE_Y: u32 = 20;

/// The smallest width and height of an atlas that holds every part.
pub const ATLAS_SIZE: u32 = 64;

/// Whether the atlas is a slim skin, with arms three pixels wide: the
/// probed pixel is all but transparent.
pub open spec fn is_slim(atlas: &Atlas) -> bool {
    atlas.at(SLIM_PROBE_X as int, SLIM_PROBE_Y as int).a < SLIM_PROBE_ALPHA
}

/// Whether the atlas is large enough for a puppet.
pub open spec fn fits_puppet(atlas: &Atlas) -> bool {
    atlas.spec_width() >= ATLAS_SIZE && atlas.spec_height() >= ATLAS_SIZE
}

/// The front face of limb `i` in the atlas.
pub open spec fn limb_patch(slim: bool, i: int) -> Patch {
    if i == HEAD {
        Patch::head()
    } else if i == TORSO {
        Patch::torso()
    } else if i == RIGHT_LEG {
        Patch::right_leg()
    } else if i == RIGHT_ARM {
        if slim {
            Patch::slim_right_arm()
        } else {
            Patch::right_arm()
        }
    } else if i == LEFT_LEG {
        Patch::left_leg()
    } else {
        if slim {
            Patch::slim_left_arm()
        } else {
            Patch::left_arm()
        }
    }
}

/// The front face of trim layer `i` in the atlas.
pub open spec fn trim_patch(slim: bool, i: int) -> Patch {
    if i == HELMET {
        Patch::helmet()
    } else if i == SHIRT {
        Patch::shirt()
    } else if i == RIGHT_PANTS {
        Patch::right_pants()
    } else if i == RIGHT_SLEEVE {
        if slim {
            Patch::slim_right_sleeve()
        } else {
            Patch::right_sleeve()
        }
    } else if i == LEFT_PANTS {
        Patch::left_pants()
    } else {
        if slim {
            Patch::slim_left_sleeve()
        } else {
            Patch::left_sleeve()
        }
    }
}

/// Where limb `i` of a standing puppet rests. The arms of a slim skin sit
/// half a pixel closer to the torso.
pub open spec fn limb_offset(slim: bool, i: int) -> Vec3 {
    if i == HEAD {
        Vec3 { x: 0, y: 110, z: 0 }
    } else if i == TORSO {
        Vec3 { x: 0, y: 20, z: 0 }
    } else if i == RIGHT_LEG {
        Vec3 { x: -20i64, y: -100i64, z: 0 }
    } else if i == RIGHT_ARM {
        if slim {
            Vec3 { x: -55i64, y: 20, z: 0 }
        } else {
            Vec3 { x: -60i64, y: 20, z: 0 }
        }
    } else if i == LEFT_LEG {
        Vec3 { x: 20, y: -100i64, z: 0 }
    } else {
        if slim {
            Vec3 { x: 55, y: 20, z: 0 }
        } else {
            Vec3 { x: 60, y: 20, z: 0 }
        }
    }
}

/// Where trim layer `i` of a standing puppet rests: where limb `i` of a
/// skin with wide arms rests, whatever the arms of this skin are.
pub open spec fn trim_offset(i: int) -> Vec3 {
    limb_offset(false, i)
}

/// What the label of limb `i` adds to the name of the puppet.
pub open spec fn limb_label(i: int) -> Seq<char> {
    if i == HEAD {
        "Head"@
    } else if i == TORSO {
        "Torso"@
    } else if i == RIGHT_LEG {
        "RightLeg"@
    } else if i == RIGHT_ARM {
        "RightArm"@
    } else if i == LEFT_LEG {
        "LeftLeg"@
    } else {
        "LeftArm"@
    }
}

/// What the label of trim layer `i` adds to the name of the puppet.
pub open spec fn trim_label(i: int) -> Seq<char> {
    if i == HELMET {
        "Helmet"@
    } else if i == SHIRT {
        "Shirt"@
    } else if i == RIGHT_PANTS {
        "RightPants"@
    } else if i == RIGHT_SLEEVE {
        "RightSleeve"@
    } else if i == LEFT_PANTS {
        "LeftPants"@
    } else {
        "LeftSleeve"@
    }
}

/// Whether part `i` belongs to the upper body without the head: the torso
/// and the arms, or their overlays.
pub open spec fn leans(i: int) -> bool {
    i == TORSO || i == RIGHT_ARM || i == LEFT_ARM
}

/// Where limb `i` of a crouched puppet rests. The torso and the arms move
/// forward, the head moves forward and down, the legs stay.
pub open spec fn crouched_limb_offset(slim: bool, i: int) -> Vec3 {
    if i == HEAD {
        limb_offset(slim, i).plus(Skin::crouch_head_offset())
    } else if leans(i) {
        limb_offset(slim, i).plus(Skin::crouch_torso_offset())
    } else {
        limb_offset(slim, i)
    }
}

/// Where trim layer `i` of a crouched puppet rests. The helmet and the
/// shirt move with the head and the torso. A sleeve is placed from where
/// the crouched arm below it rests: it is moved forward like the arm once
/// more and then back by the sleeve offset.
pub open spec fn crouched_trim_offset(slim: bool, i: int) -> Vec3 {
    if i == HELMET {
        trim_offset(i).plus(Skin::crouch_head_offset())
    } else if i == SHIRT {
        trim_offset(i).plus(Skin::crouch_torso_offset())
    } else if i == RIGHT_SLEEVE || i == LEFT_SLEEVE {
        Skin::crouch_torso_offset().plus(Skin::crouch_sleeve_offset()).plus(
            crouched_limb_offset(slim, i),
        )
    } else {
        trim_offset(i)
    }
}

/// The two turns of the arm that punches, for the frame letters `E` and
/// `F`: first about X, then about Z.
pub open spec fn punch_turns(frame_index: char) -> Seq<Turn> {
    if frame_index == 'E' {
        seq![Turn::new(Axis::X, -40i32), Turn::new(Axis::Z, -13i32)]
    } else {
        seq![Turn::new(Axis::X, -80i32), Turn::new(Axis::Z, -5i32)]
    }
}

/// The turn of a part that swings by `degrees` about the X axis.
pub open spec fn swing(degrees: i32) -> Seq<Turn> {
    seq![Turn::new(Axis::X, degrees)]
}

/// The pivot and the turns of part `i` of a crouched puppet at rest: the
/// upper body leans forward by thirty degrees, the head and the legs rest.
pub open spec fn crouch_rest(i: int) -> (Vec3, Seq<Turn>) {
    if leans(i) {
        (Skin::crouch_pivot(), swing(30))
    } else {
        rest_pose()
    }
}

/// The pivot and the turns of a part that rests.
pub open spec fn rest_pose() -> (Vec3, Seq<Turn>) {
    (Vec3::zero(), Seq::empty())
}

/// The pivot and the turns of part `i` in a punch: the right arm and its
/// sleeve are raised about the shoulder, every other part is as the puppet
/// has it at rest.
pub open spec fn punch_pose(crouched: bool, frame_index: char, i: int) -> (Vec3, Seq<Turn>) {
    if i == RIGHT_ARM {
        (
            if crouched {
                Skin::crouch_right_shoulder()
            } else {
                Skin::right_shoulder()
            },
            punch_turns(frame_index),
        )
    } else if crouched {
        crouch_rest(i)
    } else {
        rest_pose()
    }
}

/// The pivot and the turns of part `i` in a walking pose, if the pose moves
/// the part: the legs swing by thirty degrees about the hips and the arms
/// about the shoulders, each arm against the leg of its side. With
/// `right_forward` the right leg swings forward.
pub open spec fn flap(right_forward: bool, crouched: bool, i: int) -> Option<(Vec3, Seq<Turn>)> {
    let forward: i32 = if right_forward {
        30
    } else {
        -30i32
    };
    let backward: i32 = if right_forward {
        -30i32
    } else {
        30
    };
    if i == RIGHT_LEG {
        Some((Skin::right_joint(), swing(forward)))
    } else if i == RIGHT_ARM {
        Some(
            (
                if crouched {
                    Skin::crouch_right_shoulder()
                } else {
                    Skin::right_shoulder()
                },
                swing(backward),
            ),
        )
    } else if i == LEFT_LEG {
        Some((Skin::left_joint(), swing(backward)))
    } else if i == LEFT_ARM {
        Some(
            (
                if crouched {
                    Skin::crouch_left_shoulder()
                } else {
                    Skin::left_shoulder()
                },
                swing(forward),
            ),
        )
    } else {
        None
    }
}

/// The poses that the puppet strikes, one for each frame of its animation.
#[derive(Clone, Copy, PartialEq, Eq, Debug)]
pub enum PoseStep {
    /// Every part rests.
    Reset,
    /// The walking pose with the right leg forward.
    FlapRight,
    /// The walking pose with the left leg forward.
    FlapLeft,
    /// The punch of the frame letter `E` or `F`.
    Punch(char),
    /// At rest and tinted red, with the given saturation.
    DamageTint(u8),
    /// The whole puppet falls over backwards by the given angle, about the
    /// point at its feet.
    YawSweep(Angle),
}

impl PoseStep {
    /// Whether the pose can be struck: a punch names one of its two frame
    /// letters, and the angle of a fall is a number.
    pub open spec fn wf(self) -> bool {
        match self {
            PoseStep::Punch(frame_index) => Skin::is_punch_frame(frame_index),
            PoseStep::YawSweep(angle) => angle.wf(),
            _ => true,
        }
    }

    /// Whether the pose can be struck.
    pub fn is_wf(self) -> (ok: bool)
        ensures
            ok == self.wf(),
    {
        match self {
            PoseStep::Punch(frame_index) => frame_index == 'E' || frame_index == 'F',
            PoseStep::YawSweep(angle) => angle.parts >= 1,
            _ => true,
        }
    }
}

/// The pivot and the turns of every part of a puppet that has fallen over
/// by `angle`.
pub open spec fn sweep_pose(angle: Angle) -> (Vec3, Seq<Turn>) {
    (Skin::sweep_pivot(), seq![Turn { axis: Axis::NegZ, angle }])
}

/// A posable puppet.
pub struct Skin {
    /// Head, torso, right leg, right arm, left leg, left arm.
    pub limbs: [Limb; 6],
    /// Helmet, shirt, right pants, right sleeve, left pants, left sleeve.
    pub trim: [Trim; 6],
}

impl Skin {
    pub open spec fn spec_right_joint() -> Vec3 {
        Vec3 { x: -60i64, y: -40i64, z: 0 }
    }

    /// The hip of the right leg.
    #[verifier::when_used_as_spec(spec_right_joint)]
    pub fn right_joint() -> (point: Vec3)
        ensures
            point == Self::spec_right_joint(),
    {
        Vec3::new(-60, -40, 0)
    }

    pub open spec fn spec_right_shoulder() -> Vec3 {
        Vec3 { x: -60i64, y: 40, z: 0 }
    }

    /// The shoulder of the right arm.
    #[verifier::when_used_as_spec(spec_right_shoulder)]
    pub fn right_shoulder() -> (point: Vec3)
        ensures
            point == Self::spec_right_shoulder(),
    {
        Vec3::new(-60, 40, 0)
    }

    pub open spec fn spec_left_joint() -> Vec3 {
        Vec3 { x: -60i64, y: -40i64, z: 0 }
    }

    /// The hip of the left leg. A leg swings about the X axis, so only the
    /// height of the hip matters and both hips are given as the same point.
    #[verifier::when_used_as_spec(spec_left_joint)]
    pub fn left_joint() -> (point: Vec3)
        ensures
            point == Self::spec_left_joint(),
    {
        Vec3::new(-60, -40, 0)
    }

    pub open spec fn spec_left_shoulder() -> Vec3 {
        Vec3 { x: -60i64, y: 40, z: 0 }
    }

    /// The shoulder of the left arm, given as the same point as the right one.
    #[verifier::when_used_as_spec(spec_left_shoulder)]
    pub fn left_shoulder() -> (point: Vec3)
        ensures
            point == Self::spec_left_shoulder(),
    {
        Vec3::new(-60, 40, 0)
    }

    pub open spec fn spec_crouch_right_shoulder() -> Vec3 {
        Vec3 { x: -60i64, y: 20, z: 20 }
    }

    /// The shoulder of the right arm of a crouched puppet.
    #[verifier::when_used_as_spec(spec_crouch_right_shoulder)]
    pub fn crouch_right_shoulder() -> (point: Vec3)
        ensures
            point == Self::spec_crouch_right_shoulder(),
    {
        Vec3::new(-60, 20, 20)
    }

    pub open spec fn spec_crouch_left_shoulder() -> Vec3 {
        Vec3 { x: -60i64, y: 20, z: 20 }
    }

    /// The shoulder of the left arm of a crouched puppet.
    #[verifier::when_used_as_spec(spec_crouch_left_shoulder)]
    pub fn crouch_left_shoulder() -> (point: Vec3)
        ensures
            point == Self::spec_crouch_left_shoulder(),
    {
        Vec3::new(-60, 20, 20)
    }

    pub open spec fn spec_crouch_pivot() -> Vec3 {
        Vec3 { x: 0, y: 20, z: 0 }
    }

    /// The point about which the upper body of a crouched puppet leans.
    #[verifier::when_used_as_spec(spec_crouch_pivot)]
    pub fn crouch_pivot() -> (point: Vec3)
        ensures
            point == Self::spec_crouch_pivot(),
    {
        Vec3::new(0, 20, 0)
    }

    pub open spec fn spec_crouch_torso_offset() -> Vec3 {
        Vec3 { x: 0, y: 0, z: 18 }
    }

    /// How far the torso and the arms of a crouched puppet are moved.
    #[verifier::when_used_as_spec(spec_crouch_torso_offset)]
    pub fn crouch_torso_offset() -> (point: Vec3)
        ensures
            point == Self::spec_crouch_torso_offset(),
    {
        Vec3::new(0, 0, 18)
    }

    pub open spec fn spec_crouch_head_offset() -> Vec3 {
        Vec3 { x: 0, y: -20i64, z: 30 }
    }

    /// How far the head of a crouched puppet is moved.
    #[verifier::when_used_as_spec(spec_crouch_head_offset)]
    pub fn crouch_head_offset() -> (point: Vec3)
        ensures
            point == Self::spec_crouch_head_offset(),
    {
        Vec3::new(0, -20, 30)
    }

    pub open spec fn spec_crouch_sleeve_offset() -> Vec3 {
        Vec3 { x: 0, y: 0, z: -20i64 }
    }

    /// How far the sleeves of a crouched puppet are moved besides.
    #[verifier::when_used_as_spec(spec_crouch_sleeve_offset)]
    pub fn crouch_sleeve_offset() -> (point: Vec3)
        ensures
            point == Self::spec_crouch_sleeve_offset(),
    {
        Vec3::new(0, 0, -20)
    }

    pub open spec fn spec_sweep_pivot() -> Vec3 {
        Vec3 { x: 0, y: -110i64, z: 0 }
    }

    /// The point at the feet about which the puppet falls over.
    #[verifier::when_used_as_spec(spec_sweep_pivot)]
    pub fn sweep_pivot() -> (point: Vec3)
        ensures
            point == Self::spec_sweep_pivot(),
    {
        Vec3::new(0, -110, 0)
    }

    /// Whether limb `i` and trim layer `i`, for every `i`, are in the pose
    /// that `poses` gives for `i`: a pivot and the turns about it.
    pub open spec fn strikes(&self, poses: spec_fn(int) -> (Vec3, Seq<Turn>)) -> bool {
        &&& forall|i: int|
            0 <= i < 6 ==> (#[trigger] self.limbs[i]).pose.is(poses(i).0, poses(i).1)
        &&& forall|i: int|
            0 <= i < 6 ==> (#[trigger] self.trim[i]).pose.is(poses(i).0, poses(i).1)
    }

    /// Whether every part is in the pose that it has in `other`.
    pub open spec fn same_poses(&self, other: &Skin) -> bool {
        &&& forall|i: int| 0 <= i < 6 ==> (#[trigger] self.limbs[i]).pose == other.limbs[i].pose
        &&& forall|i: int| 0 <= i < 6 ==> (#[trigger] self.trim[i]).pose == other.trim[i].pose
    }

    /// Whether every part has the body that it has in `other`.
    pub open spec fn same_bodies(&self, other: &Skin) -> bool {
        &&& forall|i: int| 0 <= i < 6 ==> (#[trigger] self.limbs[i]).same_body(&other.limbs[i])
        &&& forall|i: int| 0 <= i < 6 ==> (#[trigger] self.trim[i]).same_body(&other.trim[i])
    }

    /// Whether every part has the tint that it has in `other`.
    pub open spec fn same_tints(&self, other: &Skin) -> bool {
        &&& forall|i: int| 0 <= i < 6 ==> (#[trigger] self.limbs[i]).tint == other.limbs[i].tint
        &&& forall|i: int| 0 <= i < 6 ==> (#[trigger] self.trim[i]).tint == other.trim[i].tint
    }

    /// Whether every part is tinted with `color`.
    pub open spec fn tinted(&self, color: Rgba) -> bool {
        &&& forall|i: int| 0 <= i < 6 ==> (#[trigger] self.limbs[i]).tint == color
        &&& forall|i: int| 0 <= i < 6 ==> (#[trigger] self.trim[i]).tint == color
    }

    /// Whether every part rests.
    pub open spec fn at_rest(&self) -> bool {
        self.strikes(|i: int| rest_pose())
    }

    /// Whether every part is in its pose of a crouched puppet at rest.
    pub open spec fn at_crouch_rest(&self) -> bool {
        self.strikes(|i: int| crouch_rest(i))
    }

    /// Whether the puppet is the standing puppet of the atlas: every part
    /// is cut from its region of the atlas and rests at its offset.
    pub open spec fn built_from(&self, atlas: &Atlas, name: Seq<char>) -> bool {
        let slim = is_slim(atlas);
        &&& forall|i: int|
            0 <= i < 6 ==> (#[trigger] self.limbs[i]).built_from(
                atlas,
                name + limb_label(i),
                limb_patch(slim, i),
                limb_offset(slim, i),
            )
        &&& forall|i: int|
            0 <= i < 6 ==> (#[trigger] self.trim[i]).built_from(
                atlas,
                name + trim_label(i),
                trim_patch(slim, i),
                trim_offset(i),
            )
    }

    /// Whether the puppet is the crouched puppet of the atlas: the parts of
    /// the standing puppet, moved to where they rest when it crouches.
    pub open spec fn built_crouched_from(&self, atlas: &Atlas, name: Seq<char>) -> bool {
        let slim = is_slim(atlas);
        &&& forall|i: int|
            0 <= i < 6 ==> (#[trigger] self.limbs[i]).built_from(
                atlas,
                name + limb_label(i),
                limb_patch(slim, i),
                crouched_limb_offset(slim, i),
            )
        &&& forall|i: int|
            0 <= i < 6 ==> (#[trigger] self.trim[i]).built_from(
                atlas,
                name + trim_label(i),
                trim_patch(slim, i),
                crouched_trim_offset(slim, i),
            )
    }

    /// Whether no part is tinted.
    pub open spec fn untinted(&self) -> bool {
        self.tinted(Rgba::white())
    }

    /// The label of a part: the name of the puppet, then the part.
    fn label(name: &str, part: &str) -> (label: String)
        ensures
            label@ == name@ + part@,
    {
        String::from_str(name).concat(part)
    }

    /// Builds limb `i` of the standing puppet.
    fn load_limb(atlas: &Atlas, name: &str, slim: bool, i: usize) -> (limb: Limb)
        requires
            fits_puppet(atlas),
            i < 6,
        ensures
            limb.built_from(
                atlas,
                name@ + limb_label(i as int),
                limb_patch(slim, i as int),
                limb_offset(slim, i as int),
            ),
            limb.is_plain(),
    {
        if i == HEAD {
            Limb::load(atlas, Self::label(name, "Head"), Patch::head(), Vec3::new(0, 110, 0))
        } else if i == TORSO {
            Limb::load(atlas, Self::label(name, "Torso"), Patch::torso(), Vec3::new(0, 20, 0))
        } else if i == RIGHT_LEG {
            Limb::load(
                atlas,
                Self::label(name, "RightLeg"),
                Patch::right_leg(),
                Vec3::new(-20, -100, 0),
            )
        } else if i == RIGHT_ARM {
            if slim {
                Limb::load(
                    atlas,
                    Self::label(name, "RightArm"),
                    Patch::slim_right_arm(),
                    Vec3::new(-55, 20, 0),
                )
            } else {
                Limb::load(
                    atlas,
                    Self::label(name, "RightArm"),
                    Patch::right_arm(),
                    Vec3::new(-60, 20, 0),
                )
            }
        } else if i == LEFT_LEG {
            Limb::load(
                atlas,
                Self::label(name, "LeftLeg"),
                Patch::left_leg(),
                Vec3::new(20, -100, 0),
            )
        } else {
            if slim {
                Limb::load(
                    atlas,
                    Self::label(name, "LeftArm"),
                    Patch::slim_left_arm(),
                    Vec3::new(55, 20, 0),
                )
            } else {
                Limb::load(
                    atlas,
                    Self::label(name, "LeftArm"),
                    Patch::left_arm(),
                    Vec3::new(60, 20, 0),
                )
            }
        }
    }

    /// Builds trim layer `i` of the standing puppet.
    fn load_trim(atlas: &Atlas, name: &str, slim: bool, i: usize) -> (trim: Trim)
        requires
            fits_puppet(atlas),
            i < 6,
        ensures
            trim.built_from(
                atlas,
                name@ + trim_label(i as int),
                trim_patch(slim, i as int),
                trim_offset(i as int),
            ),
            trim.is_plain(),
    {
        if i == HELMET {
            Trim::load(atlas, Self::label(name, "Helmet"), Patch::helmet(), Vec3::new(0, 110, 0))
        } else if i == SHIRT {
            Trim::load(atlas, Self::label(name, "Shirt"), Patch::shirt(), Vec3::new(0, 20, 0))
        } else if i == RIGHT_PANTS {
            Trim::load(
                atlas,
                Self::label(name, "RightPants"),
                Patch::right_pants(),
                Vec3::new(-20, -100, 0),
            )
        } else if i == RIGHT_SLEEVE {
            if slim {
                Trim::load(
                    atlas,
                    Self::label(name, "RightSleeve"),
                    Patch::slim_right_sleeve(),
                    Vec3::new(-60, 20, 0),
                )
            } else {
                Trim::load(
                    atlas,
                    Self::label(name, "RightSleeve"),
                    Patch::right_sleeve(),
                    Vec3::new(-60, 20, 0),
                )
            }
        } else if i == LEFT_PANTS {
            Trim::load(
                atlas,
                Self::label(name, "LeftPants"),
                Patch::left_pants(),
                Vec3::new(20, -100, 0),
            )
        } else {
            if slim {
                Trim::load(
                    atlas,
                    Self::label(name, "LeftSleeve"),
                    Patch::slim_left_sleeve(),
                    Vec3::new(60, 20, 0),
                )
            } else {
                Trim::load(
                    atlas,
                    Self::label(name, "LeftSleeve"),
                    Patch::left_sleeve(),
                    Vec3::new(60, 20, 0),
                )
            }
        }
    }

    /// Builds the standing puppet from the atlas. The arms are three pixels
    /// wide if the atlas is a slim skin and four otherwise; the sleeves
    /// follow the arms in width but not in place.
    pub fn load(atlas: &Atlas, name: &str) -> (skin: Skin)
        requires
            fits_puppet(atlas),
        ensures
            skin.built_from(atlas, name@),
            skin.at_rest(),
            skin.untinted(),
    {
        let slim = atlas.pixel(SLIM_PROBE_X, SLIM_PROBE_Y).a < SLIM_PROBE_ALPHA;
        Skin {
            limbs: [
                Self::load_limb(atlas, name, slim, HEAD),
                Self::load_limb(atlas, name, slim, TORSO),
                Self::load_limb(atlas, name, slim, RIGHT_LEG),
                Self::load_limb(atlas, name, slim, RIGHT_ARM),
                Self::load_limb(atlas, name, slim, LEFT_LEG),
                Self::load_limb(atlas, name, slim, LEFT_ARM),
            ],
            trim: [
                Self::load_trim(atlas, name, slim, HELMET),
                Self::load_trim(atlas, name, slim, SHIRT),
                Self::load_trim(atlas, name, slim, RIGHT_PANTS),
                Self::load_trim(atlas, name, slim, RIGHT_SLEEVE),
                Self::load_trim(atlas, name, slim, LEFT_PANTS),
                Self::load_trim(atlas, name, slim, LEFT_SLEEVE),
            ],
        }
    }

    /// Builds the crouched puppet from the atlas: the standing puppet with
    /// its upper body moved to where it rests when the puppet crouches.
    /// Only the places change here. The lean of the upper body is a pose,
    /// see [`Skin::reset_crouched`], and the head never takes part in it.
    pub fn load_crouched(atlas: &Atlas, name: &str) -> (skin: Skin)
        requires
            fits_puppet(atlas),
        ensures
            skin.built_crouched_from(atlas, name@),
            skin.at_rest(),
            skin.untinted(),
    {
        let mut skin = Self::load(atlas, name);
        let ghost slim = is_slim(atlas);
        let ghost standing = skin;
        proof {
            assert forall|i: int| 0 <= i < 6 implies (#[trigger] skin.limbs[i]).offset
                == limb_offset(slim, i) by {
                skin.limbs[i].lemma_built_fields(
                    atlas,
                    name@ + limb_label(i),
                    limb_patch(slim, i),
                    limb_offset(slim, i),
                );
            }
            assert forall|i: int| 0 <= i < 6 implies (#[trigger] skin.trim[i]).offset
                == trim_offset(i) by {
                skin.trim[i].lemma_built_fields(
                    atlas,
                    name@ + trim_label(i),
                    trim_patch(slim, i),
                    trim_offset(i),
                );
            }
        }
        skin.limbs[TORSO].offset = Self::crouch_torso_offset().moved_by(skin.limbs[TORSO].offset);
        skin.trim[SHIRT].offset = Self::crouch_torso_offset().moved_by(skin.trim[SHIRT].offset);

        skin.limbs[LEFT_ARM].offset = Self::crouch_torso_offset().moved_by(
            skin.limbs[LEFT_ARM].offset,
        );
        skin.limbs[RIGHT_ARM].offset = Self::crouch_torso_offset().moved_by(
            skin.limbs[RIGHT_ARM].offset,
        );
        skin.trim[LEFT_SLEEVE].offset = Self::crouch_torso_offset().moved_by(
            Self::crouch_sleeve_offset(),
        ).moved_by(skin.limbs[LEFT_SLEEVE].offset);
        skin.trim[RIGHT_SLEEVE].offset = Self::crouch_torso_offset().moved_by(
            Self::crouch_sleeve_offset(),
        ).moved_by(skin.limbs[RIGHT_SLEEVE].offset);

        skin.limbs[HEAD].offset = Self::crouch_head_offset().moved_by(skin.limbs[HEAD].offset);
        skin.trim[HELMET].offset = Self::crouch_head_offset().moved_by(skin.trim[HELMET].offset);
        skin.limbs[HEAD].set_transformation(Pose::rest());
        skin.trim[HELMET].set_transformation(Pose::rest());
        proof {
            assert forall|i: int| 0 <= i < 6 implies (#[trigger] skin.limbs[i]).built_from(
                atlas,
                name@ + limb_label(i),
                limb_patch(slim, i),
                crouched_limb_offset(slim, i),
            ) by {
                skin.limbs[i].lemma_built_elsewhere(
                    &standing.limbs[i],
                    atlas,
                    name@ + limb_label(i),
                    limb_patch(slim, i),
                    limb_offset(slim, i),
                );
            }
            assert forall|i: int| 0 <= i < 6 implies (#[trigger] skin.trim[i]).built_from(
                atlas,
                name@ + trim_label(i),
                trim_patch(slim, i),
                crouched_trim_offset(slim, i),
            ) by {
                skin.trim[i].lemma_built_elsewhere(
                    &standing.trim[i],
                    atlas,
                    name@ + trim_label(i),
                    trim_patch(slim, i),
                    trim_offset(i),
                );
            }
        }
        skin
    }

    /// Puts limb `i` and trim layer `i` into the pose that turns about
    /// `pivot` by `turns`, and leaves every other part as it is.
    fn pose_part(&mut self, i: usize, pivot: Vec3, turns: &[Turn])
        requires
            i < 6,
        ensures
            final(self).limbs[i as int].pose.is(pivot, turns@),
            final(self).trim[i as int].pose.is(pivot, turns@),
            forall|j: int|
                0 <= j < 6 && j != i ==> (#[trigger] final(self).limbs[j]).pose == old(
                    self,
                ).limbs[j].pose,
            forall|j: int|
                0 <= j < 6 && j != i ==> (#[trigger] final(self).trim[j]).pose == old(
                    self,
                ).trim[j].pose,
            final(self).same_bodies(old(self)),
            final(self).same_tints(old(self)),
    {
        self.limbs[i].rotate_around(pivot, turns);
        self.trim[i].rotate_around(pivot, turns);
    }

    /// Lets limb `i` and trim layer `i` rest, and leaves every other part as
    /// it is.
    fn rest_part(&mut self, i: usize)
        requires
            i < 6,
        ensures
            final(self).limbs[i as int].pose.is(Vec3::zero(), Seq::empty()),
            final(self).trim[i as int].pose.is(Vec3::zero(), Seq::empty()),
            forall|j: int|
                0 <= j < 6 && j != i ==> (#[trigger] final(self).limbs[j]).pose == old(
                    self,
                ).limbs[j].pose,
            forall|j: int|
                0 <= j < 6 && j != i ==> (#[trigger] final(self).trim[j]).pose == old(
                    self,
                ).trim[j].pose,
            final(self).same_bodies(old(self)),
            final(self).same_tints(old(self)),
    {
        self.limbs[i].set_transformation(Pose::rest());
        self.trim[i].set_transformation(Pose::rest());
    }

    /// Lets every part rest.
    pub fn reset(&mut self)
        ensures
            final(self).at_rest(),
            final(self).same_bodies(old(self)),
            final(self).same_tints(old(self)),
    {
        let mut i: usize = 0;
        while i < 6
            invariant
                0 <= i <= 6,
                forall|j: int|
                    0 <= j < i ==> (#[trigger] self.limbs[j]).pose.is(Vec3::zero(), Seq::empty()),
                forall|j: int|
                    0 <= j < i ==> (#[trigger] self.trim[j]).pose.is(Vec3::zero(), Seq::empty()),
                self.same_bodies(old(self)),
                self.same_tints(old(self)),
            decreases 6 - i,
        {
            self.rest_part(i);
            i += 1;
        }
    }

    /// Puts a crouched puppet at rest: the torso, the arms and their
    /// overlays lean forward, every other part rests.
    pub fn reset_crouched(&mut self)
        ensures
            final(self).at_crouch_rest(),
            final(self).same_bodies(old(self)),
            final(self).same_tints(old(self)),
    {
        let mut i: usize = 0;
        while i < 6
            invariant
                0 <= i <= 6,
                forall|j: int|
                    0 <= j < i ==> (#[trigger] self.limbs[j]).pose.is(
                        crouch_rest(j).0,
                        crouch_rest(j).1,
                    ),
                forall|j: int|
                    0 <= j < i ==> (#[trigger] self.trim[j]).pose.is(
                        crouch_rest(j).0,
                        crouch_rest(j).1,
                    ),
                self.same_bodies(old(self)),
                self.same_tints(old(self)),
            decreases 6 - i,
        {
            if i == TORSO || i == RIGHT_ARM || i == LEFT_ARM {
                let turns = [Turn::new(Axis::X, 30)];
                assert(turns@ =~= swing(30));
                self.pose_part(i, Self::crouch_pivot(), &turns);
            } else {
                self.rest_part(i);
            }
            i += 1;
        }
    }

    /// Whether the puppet is in the walking pose that [`flap`] describes
    /// and every part that the pose does not move is as it is in `before`.
    pub open spec fn flapped(&self, before: &Skin, right_forward: bool, crouched: bool) -> bool {
        &&& forall|i: int|
            0 <= i < 6 ==> match flap(right_forward, crouched, i) {
                Some((pivot, turns)) => (#[trigger] self.limbs[i]).pose.is(pivot, turns),
                None => self.limbs[i].pose == before.limbs[i].pose,
            }
        &&& forall|i: int|
            0 <= i < 6 ==> match flap(right_forward, crouched, i) {
                Some((pivot, turns)) => (#[trigger] self.trim[i]).pose.is(pivot, turns),
                None => self.trim[i].pose == before.trim[i].pose,
            }
    }

    /// Moves the legs and the arms to or from the walking pose with the
    /// right leg forward.
    fn flap_limbs(&mut self, right_forward: bool, crouched: bool)
        ensures
            final(self).flapped(old(self), right_forward, crouched),
            final(self).same_bodies(old(self)),
            final(self).same_tints(old(self)),
    {
        let forward = [
            Turn::new(
                Axis::X,
                if right_forward {
                    30
                } else {
                    -30
                },
            ),
        ];
        let backward = [
            Turn::new(
                Axis::X,
                if right_forward {
                    -30
                } else {
                    30
                },
            ),
        ];
        let right_shoulder = if crouched {
            Self::crouch_right_shoulder()
        } else {
            Self::right_shoulder()
        };
        let left_shoulder = if crouched {
            Self::crouch_left_shoulder()
        } else {
            Self::left_shoulder()
        };
        proof {
            assert(forward@ =~= swing(forward@[0].angle.span));
            assert(backward@ =~= swing(backward@[0].angle.span));
        }
        self.pose_part(RIGHT_LEG, Self::right_joint(), &forward);
        self.pose_part(RIGHT_ARM, right_shoulder, &backward);
        self.pose_part(LEFT_LEG, Self::left_joint(), &backward);
        self.pose_part(LEFT_ARM, left_shoulder, &forward);
    }

    /// The walking pose with the right leg forward: the right leg and the
    /// left arm swing forward by thirty degrees, the left leg and the right
    /// arm swing back. Head and torso stay as they are.
    pub fn flap_right_arm_and_leg(&mut self)
        ensures
            final(self).flapped(old(self), true, false),
            final(self).same_bodies(old(self)),
            final(self).same_tints(old(self)),
    {
        self.flap_limbs(true, false);
    }

    /// The walking pose with the left leg forward, the mirror image of
    /// [`Skin::flap_right_arm_and_leg`].
    pub fn flap_left_arm_and_leg(&mut self)
        ensures
            final(self).flapped(old(self), false, false),
            final(self).same_bodies(old(self)),
            final(self).same_tints(old(self)),
    {
        self.flap_limbs(false, false);
    }

    /// The walking pose of a crouched puppet with the right leg forward.
    /// The arms swing about the shoulders of the crouched puppet.
    pub fn flap_right_arm_and_leg_crouched(&mut self)
        ensures
            final(self).flapped(old(self), true, true),
            final(self).same_bodies(old(self)),
            final(self).same_tints(old(self)),
    {
        self.flap_limbs(true, true);
    }

    /// The walking pose of a crouched puppet with the left leg forward.
    pub fn flap_left_arm_and_leg_crouched(&mut self)
        ensures
            final(self).flapped(old(self), false, true),
            final(self).same_bodies(old(self)),
            final(self).same_tints(old(self)),
    {
        self.flap_limbs(false, true);
    }

    /// Whether `frame_index` is one of the two frame letters of a punch.
    pub open spec fn is_punch_frame(frame_index: char) -> bool {
        frame_index == 'E' || frame_index == 'F'
    }

    /// The two turns of the arm that punches.
    fn punch_axes_angles(frame_index: char) -> (turns: [Turn; 2])
        requires
            Self::is_punch_frame(frame_index),
        ensures
            turns@ == punch_turns(frame_index),
    {
        let turns = if frame_index == 'E' {
            [Turn::new(Axis::X, -40), Turn::new(Axis::Z, -13)]
        } else {
            [Turn::new(Axis::X, -80), Turn::new(Axis::Z, -5)]
        };
        assert(turns@ =~= punch_turns(frame_index));
        turns
    }

    /// The punch: every part rests but the right arm and its sleeve, which
    /// are raised about the shoulder, half way for the letter `E` and all
    /// the way for `F`.
    pub fn punch(&mut self, frame_index: char)
        requires
            Self::is_punch_frame(frame_index),
        ensures
            final(self).strikes(|i: int| punch_pose(false, frame_index, i)),
            final(self).same_bodies(old(self)),
            final(self).same_tints(old(self)),
    {
        self.reset();
        let axes_angles = Self::punch_axes_angles(frame_index);
        self.pose_part(RIGHT_ARM, Self::right_shoulder(), &axes_angles);
    }

    /// The punch of a crouched puppet: every part is as the crouched
    /// puppet has it at rest but the right arm and its sleeve, which are
    /// raised about the shoulder of the crouched puppet.
    pub fn punch_crouched(&mut self, frame_index: char)
        requires
            Self::is_punch_frame(frame_index),
        ensures
            final(self).strikes(|i: int| punch_pose(true, frame_index, i)),
            final(self).same_bodies(old(self)),
            final(self).same_tints(old(self)),
    {
        self.reset_crouched();
        let axes_angles = Self::punch_axes_angles(frame_index);
        self.pose_part(RIGHT_ARM, Self::crouch_right_shoulder(), &axes_angles);
    }

    /// Tints every part with the red of [`Rgba::red`] and leaves the poses
    /// as they are.
    fn redden(&mut self, saturation: u8)
        ensures
            final(self).tinted(Rgba::red(saturation)),
            final(self).same_bodies(old(self)),
            final(self).same_poses(old(self)),
    {
        let mut i: usize = 0;
        while i < 6
            invariant
                0 <= i <= 6,
                forall|j: int| 0 <= j < i ==> (#[trigger] self.limbs[j]).tint == Rgba::red(saturation),
                forall|j: int| 0 <= j < i ==> (#[trigger] self.trim[j]).tint == Rgba::red(saturation),
                forall|j: int| 0 <= j < 6 ==> (#[trigger] self.limbs[j]).pose == old(self).limbs[j].pose,
                forall|j: int| 0 <= j < 6 ==> (#[trigger] self.trim[j]).pose == old(self).trim[j].pose,
                self.same_bodies(old(self)),
            decreases 6 - i,
        {
            self.limbs[i].apply_red(saturation);
            self.trim[i].apply_red(saturation);
            i += 1;
        }
    }

    /// The pose of a puppet that is hurt: every part rests and is tinted
    /// red.
    pub fn apply_red(&mut self, saturation: u8)
        ensures
            final(self).at_rest(),
            final(self).tinted(Rgba::red(saturation)),
            final(self).same_bodies(old(self)),
    {
        self.reset();
        self.redden(saturation);
    }

    /// The pose of a crouched puppet that is hurt: every part is as the
    /// crouched puppet has it at rest and is tinted red.
    pub fn apply_red_crouched(&mut self, saturation: u8)
        ensures
            final(self).at_crouch_rest(),
            final(self).tinted(Rgba::red(saturation)),
            final(self).same_bodies(old(self)),
    {
        self.reset_crouched();
        self.redden(saturation);
    }

    /// Turns the whole puppet about `pivot` by `angle` about `axis`: every
    /// part gets this one pose, whatever its pose was.
    pub fn rotate_around(&mut self, pivot: Vec3, axis: Axis, angle: Angle)
        ensures
            final(self).strikes(|i: int| (pivot, seq![Turn { axis, angle }])),
            final(self).same_bodies(old(self)),
            final(self).same_tints(old(self)),
    {
        let turns = [Turn { axis, angle }];
        assert(turns@ =~= seq![Turn { axis, angle }]);
        let mut i: usize = 0;
        while i < 6
            invariant
                0 <= i <= 6,
                turns@ == seq![Turn { axis, angle }],
                forall|j: int| 0 <= j < i ==> (#[trigger] self.limbs[j]).pose.is(pivot, turns@),
                forall|j: int| 0 <= j < i ==> (#[trigger] self.trim[j]).pose.is(pivot, turns@),
                self.same_bodies(old(self)),
                self.same_tints(old(self)),
            decreases 6 - i,
        {
            self.pose_part(i, pivot, &turns);
            i += 1;
        }
    }

    /// Whether the puppet is what `pose` makes of the puppet `before`. The
    /// standing and the crouched puppet strike each pose in their own way;
    /// only the fall is the same for both.
    pub open spec fn struck(&self, before: &Skin, pose: PoseStep, crouched: bool) -> bool {
        &&& self.same_bodies(before)
        &&& match pose {
            PoseStep::Reset => self.same_tints(before) && if crouched {
                self.at_crouch_rest()
            } else {
                self.at_rest()
            },
            PoseStep::FlapRight => self.same_tints(before) && self.flapped(before, true, crouched),
            PoseStep::FlapLeft => self.same_tints(before) && self.flapped(before, false, crouched),
            PoseStep::Punch(frame_index) => self.same_tints(before) && self.strikes(
                |i: int| punch_pose(crouched, frame_index, i),
            ),
            PoseStep::DamageTint(saturation) => self.tinted(Rgba::red(saturation)) && if crouched {
                self.at_crouch_rest()
            } else {
                self.at_rest()
            },
            PoseStep::YawSweep(angle) => self.same_tints(before) && self.strikes(
                |i: int| sweep_pose(angle),
            ),
        }
    }

    /// Strikes `pose`, as the standing or as the crouched puppet.
    pub fn strike(&mut self, pose: PoseStep, crouched: bool)
        requires
            pose.wf(),
        ensures
            final(self).struck(old(self), pose, crouched),
    {
        match pose {
            PoseStep::Reset => {
                if crouched {
                    self.reset_crouched()
                } else {
                    self.reset()
                }
            },
            PoseStep::FlapRight => {
                if crouched {
                    self.flap_right_arm_and_leg_crouched()
                } else {
                    self.flap_right_arm_and_leg()
                }
            },
            PoseStep::FlapLeft => {
                if crouched {
                    self.flap_left_arm_and_leg_crouched()
                } else {
                    self.flap_left_arm_and_leg()
                }
            },
            PoseStep::Punch(frame_index) => {
                if crouched {
                    self.punch_crouched(frame_index)
                } else {
                    self.punch(frame_index)
                }
            },
            PoseStep::DamageTint(saturation) => {
                if crouched {
                    self.apply_red_crouched(saturation)
                } else {
                    self.apply_red(saturation)
                }
            },
            PoseStep::YawSweep(angle) => {
                self.rotate_around(Self::sweep_pivot(), Axis::NegZ, angle);
                assert(self.strikes(|i: int| sweep_pose(angle)));
            },
        }
    }

    /// What a pose makes of a part does not depend on the pose that the
    /// part had before: two puppets that strike the same pose have every
    /// part that the pose moves in the same pose, however they stood. The
    /// walking poses move the legs and the arms; every other pose moves
    /// every part.
    pub proof fn lemma_strike_is_absolute(
        first: &Skin,
        second: &Skin,
        first_before: &Skin,
        second_before: &Skin,
        pose: PoseStep,
        crouched: bool,
        i: int,
    )
        requires
            0 <= i < 6,
            first.struck(first_before, pose, crouched),
            second.struck(second_before, pose, crouched),
            pose is FlapRight || pose is FlapLeft ==> flap(pose is FlapRight, crouched, i) is Some,
        ensures
            first.limbs[i].pose.pivot == second.limbs[i].pose.pivot,
            first.limbs[i].pose.turns@ == second.limbs[i].pose.turns@,
            first.trim[i].pose.pivot == second.trim[i].pose.pivot,
            first.trim[i].pose.turns@ == second.trim[i].pose.turns@,
    {
    }

    /// Crouching moves the head and leans the upper body, and the two do
    /// not mix: the head and the helmet are moved by the offset of the
    /// head and rest, the torso and the arms are moved by the offset of the
    /// torso and lean about the pivot, and the legs stay where they are
    /// and rest.
    pub proof fn lemma_crouch_parts(slim: bool, i: int)
        requires
            0 <= i < 6,
        ensures
            i == HEAD ==> crouched_limb_offset(slim, i) == limb_offset(slim, i).plus(
                Self::crouch_head_offset(),
            ) && crouched_trim_offset(slim, i) == trim_offset(i).plus(Self::crouch_head_offset())
                && crouch_rest(i) == rest_pose(),
            leans(i) ==> crouched_limb_offset(slim, i) == limb_offset(slim, i).plus(
                Self::crouch_torso_offset(),
            ) && crouch_rest(i) == (Self::crouch_pivot(), swing(30)),
            i == SHIRT ==> crouched_trim_offset(slim, i) == trim_offset(i).plus(
                Self::crouch_torso_offset(),
            ),
            i == RIGHT_SLEEVE || i == LEFT_SLEEVE ==> crouched_trim_offset(slim, i)
                == crouched_limb_offset(slim, i).plus(Vec3 { x: 0, y: 0, z: -2i64 }),
            i == RIGHT_LEG || i == LEFT_LEG ==> crouched_limb_offset(slim, i) == limb_offset(
                slim,
                i,
            ) && crouched_trim_offset(slim, i) == trim_offset(i) && crouch_rest(i) == rest_pose(),
    {
    }

    /// A puppet with the bodies of one that is built from the atlas is
    /// built from it too: no pose and no tint changes what a puppet is
    /// made of.
    pub proof fn lemma_same_bodies_built(&self, other: &Skin, atlas: &Atlas, name: Seq<char>)
        requires
            self.same_bodies(other),
        ensures
            other.built_from(atlas, name) ==> self.built_from(atlas, name),
            other.built_crouched_from(atlas, name) ==> self.built_crouched_from(atlas, name),
    {
        let slim = is_slim(atlas);
        if other.built_from(atlas, name) {
            assert forall|i: int| 0 <= i < 6 implies (#[trigger] self.limbs[i]).built_from(
                atlas,
                name + limb_label(i),
                limb_patch(slim, i),
                limb_offset(slim, i),
            ) by {
                other.limbs[i].lemma_built_fields(
                    atlas,
                    name + limb_label(i),
                    limb_patch(slim, i),
                    limb_offset(slim, i),
                );
                self.limbs[i].lemma_built_elsewhere(
                    &other.limbs[i],
                    atlas,
                    name + limb_label(i),
                    limb_patch(slim, i),
                    limb_offset(slim, i),
                );
            }
            assert forall|i: int| 0 <= i < 6 implies (#[trigger] self.trim[i]).built_from(
                atlas,
                name + trim_label(i),
                trim_patch(slim, i),
                trim_offset(i),
            ) by {
                other.trim[i].lemma_built_fields(
                    atlas,
                    name + trim_label(i),
                    trim_patch(slim, i),
                    trim_offset(i),
                );
                self.trim[i].lemma_built_elsewhere(
                    &other.trim[i],
                    atlas,
                    name + trim_label(i),
                    trim_patch(slim, i),
                    trim_offset(i),
                );
            }
        }
        if other.built_crouched_from(atlas, name) {
            assert forall|i: int| 0 <= i < 6 implies (#[trigger] self.limbs[i]).built_from(
                atlas,
                name + limb_label(i),
                limb_patch(slim, i),
                crouched_limb_offset(slim, i),
            ) by {
                other.limbs[i].lemma_built_fields(
                    atlas,
                    name + limb_label(i),
                    limb_patch(slim, i),
                    crouched_limb_offset(slim, i),
                );
                self.limbs[i].lemma_built_elsewhere(
                    &other.limbs[i],
                    atlas,
                    name + limb_label(i),
                    limb_patch(slim, i),
                    crouched_limb_offset(slim, i),
                );
            }
            assert forall|i: int| 0 <= i < 6 implies (#[trigger] self.trim[i]).built_from(
                atlas,
                name + trim_label(i),
                trim_patch(slim, i),
                crouched_trim_offset(slim, i),
            ) by {
                other.trim[i].lemma_built_fields(
                    atlas,
                    name + trim_label(i),
                    trim_patch(slim, i),
                    crouched_trim_offset(slim, i),
                );
                self.trim[i].lemma_built_elsewhere(
                    &other.trim[i],
                    atlas,
                    name + trim_label(i),
                    trim_patch(slim, i),
                    crouched_trim_offset(slim, i),
                );
            }
        }
    }
}

} // verus!
