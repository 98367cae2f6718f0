//! The scripts by which the sprites of a skin are captured.
//!
//! Capturing needs a drawing surface, a camera and a place to put images,
//! and none of them is here. A script lists, step by step, what is to be
//! done with them: which puppet to build, which pose to strike, when to
//! capture a frame under which name and how to move the camera in between.
//! Whoever owns the surface walks through the script and does as it says.
//! The camera is shared by all scripts of a skin and keeps every move.

use vstd::prelude::*;
use vstd::string::StringExecFns;
use crate::atlas::Atlas;
use crate::color::Rgba;
use crate::geometry::{Angle, Axis, Turn, Vec3};
use crate::limb::Limb;
use crate::patch::Patch;
use crate::skin::PoseStep;
use crate::trim::Trim;

verus! {

/// The four kinds of sprites that are made of a skin.
#[derive(Clone, Copy, PartialEq, Eq, Debug, Structural)]
pub enum SpriteClass {
    /// The standing puppet, seen from eight sides.
    Sprites,
    /// The crouched puppet, seen from eight sides.
    CrouchSprites,
    /// The head alone, for the status bar.
    Mugshot,
    /// The right arm alone, seen from the eyes of the player.
    Fist,
}

/// The faces that the status bar shows.
#[derive(Clone, Copy, PartialEq, Eq, Debug, Structural)]
pub enum Mood {
    Dead,
    Evil,
    God,
    Kill,
    Ouch,
    Straight,
    Left,
    Right,
}

/// A change to the two parts of a small puppet, the head with its helmet
/// or the arm with its sleeve. Both parts change alike.
#[derive(Clone, Copy, PartialEq, Eq, Debug)]
pub enum PartStep {
    /// Both parts are tinted with the colour.
    Color(Rgba),
    /// Both parts are tinted red with the saturation.
    Red(u8),
    /// Both parts are turned about their centre.
    Rotate(Turn),
    /// Both parts are turned about their centre by the first turn and,
    /// within it, by the second.
    RotateTwice(Turn, Turn),
}

/// A frame that is captured: what tells its image from every other image
/// of the same skin.
#[derive(Clone, Copy, PartialEq, Eq, Debug)]
pub enum Capture {
    /// A frame of the whole puppet, with its letter and the digit of the
    /// side that it is seen from: 1 to 8 around the puppet, or 0 where
    /// there is only one view.
    Body { crouched: bool, letter: char, rotation: u8 },
    /// A frame of the head with its number within the mood.
    Face { mood: Mood, frame: u8 },
    /// A frame of the head for one level of damage, with its number within
    /// that level.
    HurtFace { mood: Mood, level: u8, frame: u8 },
    /// A frame of the fist, with its letter.
    Fist { letter: char },
}

/// One step of a script.
#[derive(Clone, Copy, PartialEq, Eq, Debug)]
pub enum Step {
    /// Make the place for the images of the class and build its puppet.
    Begin(SpriteClass),
    /// Let the whole puppet strike a pose.
    Pose { pose: PoseStep, crouched: bool },
    /// Change both parts of the small puppet.
    Part(PartStep),
    /// Draw the puppet as it is and keep the image.
    Capture(Capture),
    /// Move the camera an eighth of a full turn around the puppet, with the
    /// up direction fixed.
    TurnCamera,
    /// Move the camera half way around the puppet.
    FlipCamera,
    /// Move the camera along Z by so many tenths of a pixel.
    MoveCamera(i64),
}

/// The width of every captured image in pixels.
pub const VIEWPORT_WIDTH: u32 = 204;

/// The height of every captured image in pixels.
pub const VIEWPORT_HEIGHT: u32 = 128;

/// How far in front of the puppet the camera starts out, in tenths of a
/// pixel. It looks at the origin, with +Y up.
pub const CAMERA_DISTANCE: i64 = 350;

/// The vertical field of view of the camera in degrees.
pub const CAMERA_FIELD_OF_VIEW: i32 = 60;

/// The near plane of the camera, in tenths of a pixel.
pub const CAMERA_NEAR: i64 = 1;

/// The far plane of the camera, in tenths of a pixel.
pub const CAMERA_FAR: i64 = 1000;

/// The saturation of the red of a puppet that is hurt.
pub const DAMAGE_SATURATION: u8 = 70;

/// The number of letters of the animation of the standing puppet, `A` to
/// `W`.
pub const SKIN_LETTERS: u8 = 23;

/// The number of letters of the animation of the crouched puppet, and of
/// the letters that are seen from all sides, `A` to `G`.
pub const FAN_LETTERS: u8 = 7;

/// The number of sides from which a letter is seen.
pub const FAN_SIDES: u8 = 8;

/// The number of letters of the animation of the fist, `A` to `I`.
pub const FIST_LETTERS: u8 = 9;

/// The number of levels of damage that the head shows.
pub const HURT_LEVELS: u8 = 5;

/// The number of moods of the head.
pub const MOODS: u8 = 8;

/// How far the camera backs off for the head, in tenths of a pixel.
pub const MUGSHOT_CAMERA: i64 = 100;

/// How far the flipped camera moves for the fist, in tenths of a pixel.
pub const FIST_CAMERA: i64 = -280;

/// The letter at place `k` of the alphabet, counted from zero.
pub open spec fn letter_at(k: int) -> char {
    (65 + k) as char
}

/// The place of a capital letter in the alphabet, counted from zero.
pub open spec fn spec_letter_offset(letter: char) -> int {
    letter as u32 - 65
}

/// The place of a capital letter in the alphabet, counted from zero.
pub fn letter_offset(letter: char) -> (offset: u32)
    requires
        'A' <= letter,
    ensures
        offset == spec_letter_offset(letter),
{
    letter as u32 - 65
}

/// How many letters `letter` comes after `other`.
pub fn offset_from(letter: char, other: char) -> (offset: u32)
    requires
        'A' <= other <= letter,
    ensures
        offset == letter as u32 - other as u32,
{
    letter_offset(letter) - letter_offset(other)
}

/// The angle of step `step` of a fall that cuts the quarter turn into
/// `steps` equal steps.
pub open spec fn sweep_angle(step: int, steps: int) -> Angle {
    Angle { span: 90, parts: steps as u32, steps: step as u32 }
}

/// The pose of the puppet for a frame letter from `A` to `W`. `A` and `C`
/// are at rest and `B` and `D` the two walking poses between them, `E` and
/// `F` are the punch and `G` is the hurt puppet. With `H` to `N` the puppet
/// falls over in seven steps and with `O` to `W` once more in nine; each of
/// these angles is counted from the upright puppet, not from the frame
/// before.
pub open spec fn pose_of(letter: char) -> PoseStep {
    if letter == 'A' || letter == 'C' {
        PoseStep::Reset
    } else if letter == 'B' {
        PoseStep::FlapRight
    } else if letter == 'D' {
        PoseStep::FlapLeft
    } else if letter == 'E' || letter == 'F' {
        PoseStep::Punch(letter)
    } else if letter == 'G' {
        PoseStep::DamageTint(DAMAGE_SATURATION)
    } else if letter <= 'N' {
        PoseStep::YawSweep(sweep_angle(letter as u32 - 'H' as u32 + 1, 7))
    } else {
        PoseStep::YawSweep(sweep_angle(letter as u32 - 'O' as u32 + 1, 9))
    }
}

/// Whether the frame letter is seen from all eight sides.
pub open spec fn fans_out(letter: char) -> bool {
    'A' <= letter <= 'G'
}

/// Whether the frame letter belongs to the animation of the standing
/// puppet.
pub open spec fn is_skin_letter(letter: char) -> bool {
    'A' <= letter <= 'W'
}

/// The first `sides` views of a letter that is seen from all sides: each
/// is captured with its digit, counted from one, and the camera moves on
/// to the next. After the eighth view the camera is back where it was.
pub open spec fn fan(crouched: bool, letter: char, sides: int) -> Seq<Step>
    decreases sides,
{
    if sides <= 0 {
        Seq::empty()
    } else {
        fan(crouched, letter, sides - 1) + seq![
            Step::Capture(Capture::Body { crouched, letter, rotation: sides as u8 }),
            Step::TurnCamera,
        ]
    }
}

/// The steps of one frame letter of the whole puppet: the pose, then the
/// eight views of it or, from `H` on, its one view with the digit zero.
pub open spec fn letter_steps(crouched: bool, letter: char) -> Seq<Step> {
    seq![Step::Pose { pose: pose_of(letter), crouched }] + if fans_out(letter) {
        fan(crouched, letter, FAN_SIDES as int)
    } else {
        seq![Step::Capture(Capture::Body { crouched, letter, rotation: 0 })]
    }
}

/// The steps of the first `letters` frame letters of the whole puppet.
pub open spec fn body_steps(crouched: bool, letters: int) -> Seq<Step>
    decreases letters,
{
    if letters <= 0 {
        Seq::empty()
    } else {
        body_steps(crouched, letters - 1) + letter_steps(crouched, letter_at(letters - 1))
    }
}

/// The script of the standing puppet: the letters `A` to `W`.
pub open spec fn skin_script() -> Seq<Step> {
    seq![Step::Begin(SpriteClass::Sprites)] + body_steps(false, SKIN_LETTERS as int)
}

/// The script of the crouched puppet: the letters `A` to `G`.
pub open spec fn crouch_script() -> Seq<Step> {
    seq![Step::Begin(SpriteClass::CrouchSprites)] + body_steps(true, FAN_LETTERS as int)
}

/// The mood at place `k` of the order in which the moods are captured.
pub open spec fn mood_at(k: int) -> Mood {
    if k == 0 {
        Mood::Dead
    } else if k == 1 {
        Mood::Evil
    } else if k == 2 {
        Mood::God
    } else if k == 3 {
        Mood::Kill
    } else if k == 4 {
        Mood::Ouch
    } else if k == 5 {
        Mood::Straight
    } else if k == 6 {
        Mood::Left
    } else {
        Mood::Right
    }
}

/// The saturation of the red at a level of damage: none of the red shows at
/// level zero, and it deepens from level to level.
pub open spec fn red_level(level: int) -> u8 {
    (255int / (level + 1)) as u8
}

/// How far the head that looks straight on is turned in its frame `frame`:
/// to one side, not at all, to the other side.
pub open spec fn glance(frame: int) -> i32 {
    if frame == 0 {
        15
    } else if frame == 1 {
        0
    } else {
        -15i32
    }
}

/// What sets the head up for a mood: a tint for the dead and the godlike
/// head, a nod or a turn for the others, nothing for the head that looks
/// straight on.
pub open spec fn mood_setup(mood: Mood) -> Seq<Step> {
    match mood {
        Mood::Dead => seq![Step::Part(PartStep::Color(Rgba::new(64, 64, 64, 255)))],
        Mood::Evil | Mood::Kill => seq![Step::Part(PartStep::Rotate(Turn::new(Axis::X, -15i32)))],
        Mood::God => seq![Step::Part(PartStep::Color(Rgba::new(255, 215, 0, 255)))],
        Mood::Ouch => seq![Step::Part(PartStep::Rotate(Turn::new(Axis::X, 15)))],
        Mood::Straight => Seq::empty(),
        Mood::Left => seq![Step::Part(PartStep::Rotate(Turn::new(Axis::Y, -30i32)))],
        Mood::Right => seq![Step::Part(PartStep::Rotate(Turn::new(Axis::Y, 30)))],
    }
}

/// The first `levels` frames of a mood that nods: one frame for each level
/// of damage, numbered by the level.
pub open spec fn nod_frames(mood: Mood, levels: int) -> Seq<Step>
    decreases levels,
{
    if levels <= 0 {
        Seq::empty()
    } else {
        nod_frames(mood, levels - 1) + seq![
            Step::Part(PartStep::Red(red_level(levels - 1))),
            Step::Capture(Capture::Face { mood, frame: (levels - 1) as u8 }),
        ]
    }
}

/// The first `frames` frames of the head that looks straight on, at one
/// level of damage: the head glances and is captured.
pub open spec fn glance_frames(level: int, frames: int) -> Seq<Step>
    decreases frames,
{
    if frames <= 0 {
        Seq::empty()
    } else {
        glance_frames(level, frames - 1) + seq![
            Step::Part(PartStep::Rotate(Turn::new(Axis::Y, glance(frames - 1)))),
            Step::Capture(
                Capture::HurtFace {
                    mood: Mood::Straight,
                    level: level as u8,
                    frame: (frames - 1) as u8,
                },
            ),
        ]
    }
}

/// The frames of the head that looks straight on for the first `levels`
/// levels of damage: three glances at each level.
pub open spec fn straight_frames(levels: int) -> Seq<Step>
    decreases levels,
{
    if levels <= 0 {
        Seq::empty()
    } else {
        straight_frames(levels - 1) + seq![Step::Part(PartStep::Red(red_level(levels - 1)))]
            + glance_frames(levels - 1, 3)
    }
}

/// The first `levels` frames of a head that is turned to a side: one frame
/// for each level of damage.
pub open spec fn side_frames(mood: Mood, levels: int) -> Seq<Step>
    decreases levels,
{
    if levels <= 0 {
        Seq::empty()
    } else {
        side_frames(mood, levels - 1) + seq![
            Step::Part(PartStep::Red(red_level(levels - 1))),
            Step::Capture(Capture::HurtFace { mood, level: (levels - 1) as u8, frame: 0 }),
        ]
    }
}

/// The frames of a mood. The dead and the godlike head have one frame. The
/// heads that nod have one for each level of damage and are set upright
/// again after the last. The others have frames within each level.
pub open spec fn mood_frames(mood: Mood) -> Seq<Step> {
    match mood {
        Mood::Dead | Mood::God => seq![Step::Capture(Capture::Face { mood, frame: 0 })],
        Mood::Evil | Mood::Kill | Mood::Ouch => nod_frames(mood, HURT_LEVELS as int) + seq![
            Step::Part(PartStep::Rotate(Turn::new(Axis::X, 0))),
        ],
        Mood::Straight => straight_frames(HURT_LEVELS as int),
        Mood::Left | Mood::Right => side_frames(mood, HURT_LEVELS as int),
    }
}

/// The steps of the first `moods` moods.
pub open spec fn mood_steps(moods: int) -> Seq<Step>
    decreases moods,
{
    if moods <= 0 {
        Seq::empty()
    } else {
        mood_steps(moods - 1) + mood_setup(mood_at(moods - 1)) + mood_frames(mood_at(moods - 1))
    }
}

/// The script of the head: the camera backs off, then the eight moods
/// follow. A tint or a turn stays until the next one replaces it.
pub open spec fn mugshot_script() -> Seq<Step> {
    seq![Step::MoveCamera(MUGSHOT_CAMERA), Step::Begin(SpriteClass::Mugshot)] + mood_steps(
        MOODS as int,
    )
}

/// How far the fist is pitched in the frame of a letter from `A` to `I`.
pub open spec fn fist_pitch(letter: char) -> i32 {
    if letter == 'A' {
        130
    } else if letter == 'B' {
        135
    } else if letter == 'C' {
        125
    } else if letter == 'D' {
        115
    } else if letter == 'E' {
        105
    } else if letter == 'F' {
        110
    } else if letter == 'G' {
        115
    } else if letter == 'H' {
        120
    } else {
        125
    }
}

/// The yaw of the fist in every frame.
pub const FIST_YAW: i32 = -115;

/// The steps of the first `letters` frame letters of the fist: the arm is
/// pitched, at its fixed yaw, and captured.
pub open spec fn fist_steps(letters: int) -> Seq<Step>
    decreases letters,
{
    if letters <= 0 {
        Seq::empty()
    } else {
        fist_steps(letters - 1) + seq![
            Step::Part(
                PartStep::RotateTwice(
                    Turn::new(Axis::X, fist_pitch(letter_at(letters - 1))),
                    Turn::new(Axis::Y, FIST_YAW),
                ),
            ),
            Step::Capture(Capture::Fist { letter: letter_at(letters - 1) }),
        ]
    }
}

/// The script of the fist: the camera goes around to look over the
/// shoulder and moves in, then the letters `A` to `I` follow.
pub open spec fn fist_script() -> Seq<Step> {
    seq![Step::Begin(SpriteClass::Fist), Step::FlipCamera, Step::MoveCamera(FIST_CAMERA)]
        + fist_steps(FIST_LETTERS as int)
}

/// The pose of the puppet for a frame letter, if the letter is one of `A`
/// to `W`.
pub fn skin_pose(letter: char) -> (pose: Option<PoseStep>)
    ensures
        pose == if is_skin_letter(letter) {
            Some(pose_of(letter))
        } else {
            None
        },
        pose matches Some(step) ==> step.wf(),
{
    match letter {
        'A' | 'C' => Some(PoseStep::Reset),
        'B' => Some(PoseStep::FlapRight),
        'D' => Some(PoseStep::FlapLeft),
        'E' | 'F' => Some(PoseStep::Punch(letter)),
        'G' => Some(PoseStep::DamageTint(DAMAGE_SATURATION)),
        'H'..='N' => Some(
            PoseStep::YawSweep(Angle { span: 90, parts: 7, steps: offset_from(letter, 'H') + 1 }),
        ),
        'O'..='W' => Some(
            PoseStep::YawSweep(Angle { span: 90, parts: 9, steps: offset_from(letter, 'O') + 1 }),
        ),
        _ => None,
    }
}

/// Appends the eight views of a letter that is seen from all sides.
fn push_fan(steps: &mut Vec<Step>, crouched: bool, letter: char)
    ensures
        final(steps)@ == old(steps)@ + fan(crouched, letter, FAN_SIDES as int),
{
    let mut rotation: u8 = 1;
    assert(steps@ =~= old(steps)@ + fan(crouched, letter, 0));
    while rotation <= FAN_SIDES
        invariant
            1 <= rotation <= FAN_SIDES + 1,
            steps@ == old(steps)@ + fan(crouched, letter, rotation - 1),
        decreases FAN_SIDES + 1 - rotation,
    {
        steps.push(Step::Capture(Capture::Body { crouched, letter, rotation }));
        steps.push(Step::TurnCamera);
        assert(steps@ =~= old(steps)@ + fan(crouched, letter, rotation as int));
        rotation += 1;
    }
}

/// Appends the steps of the first `letters` frame letters of the whole
/// puppet.
fn push_body(steps: &mut Vec<Step>, crouched: bool, letters: u8)
    requires
        letters <= SKIN_LETTERS,
    ensures
        final(steps)@ == old(steps)@ + body_steps(crouched, letters as int),
{
    let mut k: u8 = 0;
    assert(steps@ =~= old(steps)@ + body_steps(crouched, 0));
    while k < letters
        invariant
            0 <= k <= letters <= SKIN_LETTERS,
            steps@ == old(steps)@ + body_steps(crouched, k as int),
        decreases letters - k,
    {
        let frame_index = (65 + k) as char;
        let ghost before = steps@;
        let pose = match skin_pose(frame_index) {
            Some(pose) => pose,
            None => PoseStep::Reset,
        };
        steps.push(Step::Pose { pose, crouched });
        match frame_index {
            'A'..='G' => {
                push_fan(steps, crouched, frame_index);
            },
            _ => {
                let rotation: u8 = 0;
                steps.push(Step::Capture(Capture::Body { crouched, letter: frame_index, rotation }));
            },
        }
        assert(steps@ =~= before + letter_steps(crouched, frame_index));
        assert(steps@ =~= old(steps)@ + body_steps(crouched, k + 1));
        k += 1;
    }
}

/// The script of the standing puppet: for each of the letters `A` to `W`
/// the puppet strikes the pose of the letter and is captured, from eight
/// sides for `A` to `G` and from the front for the letters of the fall.
pub fn render_skin() -> (steps: Vec<Step>)
    ensures
        steps@ == skin_script(),
{
    let mut steps: Vec<Step> = Vec::new();
    steps.push(Step::Begin(SpriteClass::Sprites));
    push_body(&mut steps, false, SKIN_LETTERS);
    steps
}

/// The script of the standing puppet followed by the script of the
/// crouched puppet, which has the letters `A` to `G` only.
pub fn render_skin_with_crouch() -> (steps: Vec<Step>)
    ensures
        steps@ == skin_script() + crouch_script(),
{
    let mut steps = render_skin();
    steps.push(Step::Begin(SpriteClass::CrouchSprites));
    push_body(&mut steps, true, FAN_LETTERS);
    assert(steps@ =~= skin_script() + crouch_script());
    steps
}

/// The mood at place `k` of the order in which the moods are captured.
fn mood(k: u8) -> (mood: Mood)
    ensures
        mood == mood_at(k as int),
{
    match k {
        0 => Mood::Dead,
        1 => Mood::Evil,
        2 => Mood::God,
        3 => Mood::Kill,
        4 => Mood::Ouch,
        5 => Mood::Straight,
        6 => Mood::Left,
        _ => Mood::Right,
    }
}

/// Appends the frames of a mood that nods.
fn push_nod_frames(steps: &mut Vec<Step>, mood: Mood)
    ensures
        final(steps)@ == old(steps)@ + nod_frames(mood, HURT_LEVELS as int),
{
    let mut i: u8 = 0;
    assert(steps@ =~= old(steps)@ + nod_frames(mood, 0));
    while i < HURT_LEVELS
        invariant
            0 <= i <= HURT_LEVELS,
            steps@ == old(steps)@ + nod_frames(mood, i as int),
        decreases HURT_LEVELS - i,
    {
        let saturation = 255 / (i + 1);
        steps.push(Step::Part(PartStep::Red(saturation)));
        steps.push(Step::Capture(Capture::Face { mood, frame: i }));
        assert(steps@ =~= old(steps)@ + nod_frames(mood, i + 1));
        i += 1;
    }
}

/// Appends the frames of the head that looks straight on.
fn push_straight_frames(steps: &mut Vec<Step>)
    ensures
        final(steps)@ == old(steps)@ + straight_frames(HURT_LEVELS as int),
{
    let mut x: u8 = 0;
    assert(steps@ =~= old(steps)@ + straight_frames(0));
    while x < HURT_LEVELS
        invariant
            0 <= x <= HURT_LEVELS,
            steps@ == old(steps)@ + straight_frames(x as int),
        decreases HURT_LEVELS - x,
    {
        let saturation = 255 / (x + 1);
        steps.push(Step::Part(PartStep::Red(saturation)));
        let ghost level_start = steps@;
        let mut y: u8 = 0;
        assert(steps@ =~= level_start + glance_frames(x as int, 0));
        while y < 3
            invariant
                0 <= y <= 3,
                steps@ == level_start + glance_frames(x as int, y as int),
            decreases 3 - y,
        {
            let angle: i32 = match y {
                0 => 15,
                1 => 0,
                _ => -15,
            };
            steps.push(Step::Part(PartStep::Rotate(Turn::new(Axis::Y, angle))));
            steps.push(Step::Capture(Capture::HurtFace { mood: Mood::Straight, level: x, frame: y }));
            assert(steps@ =~= level_start + glance_frames(x as int, y + 1));
            y += 1;
        }
        assert(steps@ =~= old(steps)@ + straight_frames(x + 1));
        x += 1;
    }
}

/// Appends the frames of a head that is turned to a side.
fn push_side_frames(steps: &mut Vec<Step>, mood: Mood)
    ensures
        final(steps)@ == old(steps)@ + side_frames(mood, HURT_LEVELS as int),
{
    let mut i: u8 = 0;
    assert(steps@ =~= old(steps)@ + side_frames(mood, 0));
    while i < HURT_LEVELS
        invariant
            0 <= i <= HURT_LEVELS,
            steps@ == old(steps)@ + side_frames(mood, i as int),
        decreases HURT_LEVELS - i,
    {
        let saturation = 255 / (i + 1);
        steps.push(Step::Part(PartStep::Red(saturation)));
        steps.push(Step::Capture(Capture::HurtFace { mood, level: i, frame: 0 }));
        assert(steps@ =~= old(steps)@ + side_frames(mood, i + 1));
        i += 1;
    }
}

/// The script of the head. The eight moods follow each other; each sets
/// the head up and captures its frames. The heads that can be hurt are
/// captured once for each of five levels of damage, and the head that
/// looks straight on glances three ways at each level.
pub fn render_mugshot() -> (steps: Vec<Step>)
    ensures
        steps@ == mugshot_script(),
{
    let mut steps: Vec<Step> = Vec::new();
    steps.push(Step::MoveCamera(MUGSHOT_CAMERA));
    steps.push(Step::Begin(SpriteClass::Mugshot));
    let ghost start = steps@;
    let mut k: u8 = 0;
    assert(steps@ =~= start + mood_steps(0));
    while k < MOODS
        invariant
            0 <= k <= MOODS,
            start == seq![Step::MoveCamera(MUGSHOT_CAMERA), Step::Begin(SpriteClass::Mugshot)],
            steps@ == start + mood_steps(k as int),
        decreases MOODS - k,
    {
        let suffix = mood(k);
        let ghost before = steps@;
        match suffix {
            Mood::Dead => {
                let color = Rgba::new(64, 64, 64, 255);
                steps.push(Step::Part(PartStep::Color(color)));
            },
            Mood::Evil | Mood::Kill => {
                let angle: i32 = -15;
                steps.push(Step::Part(PartStep::Rotate(Turn::new(Axis::X, angle))));
            },
            Mood::God => {
                let color = Rgba::new(255, 215, 0, 255);
                steps.push(Step::Part(PartStep::Color(color)));
            },
            Mood::Ouch => {
                let angle: i32 = 15;
                steps.push(Step::Part(PartStep::Rotate(Turn::new(Axis::X, angle))));
            },
            Mood::Straight => (),
            Mood::Left => {
                let angle: i32 = -30;
                steps.push(Step::Part(PartStep::Rotate(Turn::new(Axis::Y, angle))));
            },
            Mood::Right => {
                let angle: i32 = 30;
                steps.push(Step::Part(PartStep::Rotate(Turn::new(Axis::Y, angle))));
            },
        }
        assert(steps@ =~= before + mood_setup(suffix));
        let ghost ready = steps@;
        match suffix {
            Mood::Dead | Mood::God => {
                steps.push(Step::Capture(Capture::Face { mood: suffix, frame: 0 }));
            },
            Mood::Evil | Mood::Kill | Mood::Ouch => {
                push_nod_frames(&mut steps, suffix);
                steps.push(Step::Part(PartStep::Rotate(Turn::new(Axis::X, 0))));
            },
            Mood::Straight => {
                push_straight_frames(&mut steps);
            },
            Mood::Left | Mood::Right => {
                push_side_frames(&mut steps, suffix);
            },
        }
        assert(steps@ =~= ready + mood_frames(suffix));
        assert(steps@ =~= start + mood_steps(k + 1));
        k += 1;
    }
    steps
}

/// How far the fist is pitched in the frame of a letter from `A` to `I`.
fn pitch(frame_index: char) -> (degrees: i32)
    ensures
        degrees == fist_pitch(frame_index),
{
    match frame_index {
        'A' => 130,
        'B' => 135,
        'C' => 125,
        'D' => 115,
        'E' => 105,
        'F' => 110,
        'G' => 115,
        'H' => 120,
        _ => 125,
    }
}

/// The script of the fist: behind the flipped camera the arm is pitched
/// through nine angles, one for each of the letters `A` to `I`, and
/// captured once at each.
pub fn render_fist() -> (steps: Vec<Step>)
    ensures
        steps@ == fist_script(),
{
    let mut steps: Vec<Step> = Vec::new();
    steps.push(Step::Begin(SpriteClass::Fist));
    steps.push(Step::FlipCamera);
    steps.push(Step::MoveCamera(FIST_CAMERA));
    let ghost start = steps@;
    let mut k: u8 = 0;
    assert(steps@ =~= start + fist_steps(0));
    while k < FIST_LETTERS
        invariant
            0 <= k <= FIST_LETTERS,
            start == seq![
                Step::Begin(SpriteClass::Fist),
                Step::FlipCamera,
                Step::MoveCamera(FIST_CAMERA),
            ],
            steps@ == start + fist_steps(k as int),
        decreases FIST_LETTERS - k,
    {
        let frame_index = (65 + k) as char;
        let rotation = PartStep::RotateTwice(
            Turn::new(Axis::X, pitch(frame_index)),
            Turn::new(Axis::Y, FIST_YAW),
        );
        steps.push(Step::Part(rotation));
        steps.push(Step::Capture(Capture::Fist { letter: frame_index }));
        assert(steps@ =~= start + fist_steps(k + 1));
        k += 1;
    }
    steps
}

/// Where the arm of the fist rests, in tenths of a pixel.
pub open spec fn fist_offset() -> Vec3 {
    Vec3 { x: 35, y: 0, z: 0 }
}

/// Builds the small puppet of the head: the head and its helmet, both
/// centred at the origin.
pub fn load_mugshot(atlas: &Atlas) -> (puppet: (Limb, Trim))
    requires
        atlas.holds_cuboid(Patch::head()),
        atlas.holds_cuboid(Patch::helmet()),
    ensures
        puppet.0.built_from(atlas, "head"@, Patch::head(), Vec3::zero()),
        puppet.0.is_plain(),
        puppet.1.built_from(atlas, "helmet"@, Patch::helmet(), Vec3::zero()),
        puppet.1.is_plain(),
{
    let head = Limb::load(atlas, String::from_str("head"), Patch::head(), Vec3::zero());
    let helmet = Trim::load(atlas, String::from_str("helmet"), Patch::helmet(), Vec3::zero());
    (head, helmet)
}

/// Builds the small puppet of the fist: the right arm and its sleeve, both
/// a little to the side of the origin. The arm is always four pixels wide.
pub fn load_fist(atlas: &Atlas) -> (puppet: (Limb, Trim))
    requires
        atlas.holds_cuboid(Patch::right_arm()),
        atlas.holds_cuboid(Patch::right_sleeve()),
    ensures
        puppet.0.built_from(atlas, "arm"@, Patch::right_arm(), fist_offset()),
        puppet.0.is_plain(),
        puppet.1.built_from(atlas, "arm"@, Patch::right_sleeve(), fist_offset()),
        puppet.1.is_plain(),
{
    let position = Vec3::new(35, 0, 0);
    let arm = Limb::load(atlas, String::from_str("arm"), Patch::right_arm(), position);
    let sleeve = Trim::load(atlas, String::from_str("arm"), Patch::right_sleeve(), position);
    (arm, sleeve)
}

impl PartStep {
    /// Whether the two parts are what this step makes of the parts
    /// `limb_before` and `trim_before`.
    pub open spec fn done(
        self,
        limb: &Limb,
        trim: &Trim,
        limb_before: &Limb,
        trim_before: &Trim,
    ) -> bool {
        &&& limb.same_body(limb_before)
        &&& trim.same_body(trim_before)
        &&& match self {
            PartStep::Color(color) => {
                &&& limb.tint == color && trim.tint == color
                &&& limb.pose == limb_before.pose && trim.pose == trim_before.pose
            },
            PartStep::Red(saturation) => {
                &&& limb.tint == Rgba::red(saturation) && trim.tint == Rgba::red(saturation)
                &&& limb.pose == limb_before.pose && trim.pose == trim_before.pose
            },
            PartStep::Rotate(turn) => {
                &&& limb.pose.is(Vec3::zero(), seq![turn])
                &&& trim.pose.is(Vec3::zero(), seq![turn])
                &&& limb.tint == limb_before.tint && trim.tint == trim_before.tint
            },
            PartStep::RotateTwice(first, second) => {
                &&& limb.pose.is(Vec3::zero(), seq![first, second])
                &&& trim.pose.is(Vec3::zero(), seq![first, second])
                &&& limb.tint == limb_before.tint && trim.tint == trim_before.tint
            },
        }
    }

    /// Changes both parts of a small puppet.
    pub fn apply(self, limb: &mut Limb, trim: &mut Trim)
        ensures
            self.done(final(limb), final(trim), old(limb), old(trim)),
    {
        match self {
            PartStep::Color(color) => {
                limb.apply_color(color);
                trim.apply_color(color);
            },
            PartStep::Red(saturation) => {
                limb.apply_red(saturation);
                trim.apply_red(saturation);
            },
            PartStep::Rotate(turn) => {
                let axis_angle = [turn];
                assert(axis_angle@ =~= seq![turn]);
                limb.rotate_around(Vec3::zero(), &axis_angle);
                trim.rotate_around(Vec3::zero(), &axis_angle);
            },
            PartStep::RotateTwice(first, second) => {
                let rotation = [first, second];
                assert(rotation@ =~= seq![first, second]);
                limb.rotate_around(Vec3::zero(), &rotation);
                trim.rotate_around(Vec3::zero(), &rotation);
            },
        }
    }
}

} // verus!
