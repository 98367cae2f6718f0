//! What the scripts amount to: the frames that a script captures, in the
//! order of their capture, and the angles of the fall.

use vstd::prelude::*;
use crate::geometry::{Angle, Axis, Turn};
use crate::render::{
    body_steps, crouch_script, fan, fans_out, fist_pitch, fist_script, fist_steps, glance,
    glance_frames, letter_at, letter_steps, mood_at, mood_frames, mood_setup, mood_steps,
    mugshot_script, nod_frames, pose_of, red_level, side_frames, skin_script, straight_frames,
    sweep_angle, Capture, Mood, PartStep, SpriteClass, Step, FIST_CAMERA, FIST_YAW,
    MUGSHOT_CAMERA,
};
use crate::skin::PoseStep;

verus! {

/// The frames that a script captures, in order.
pub open spec fn frames(script: Seq<Step>) -> Seq<Capture>
    decreases script.len(),
{
    if script.len() == 0 {
        Seq::empty()
    } else {
        let before = frames(script.drop_last());
        match script.last() {
            Step::Capture(capture) => before.push(capture),
            _ => before,
        }
    }
}

/// The frames of the standing or the crouched puppet for its first
/// `letters` letters: eight for each of the letters up to `G`, with the
/// digits 1 to 8, then one for each letter after, with the digit 0.
pub open spec fn body_frames(crouched: bool, letters: int) -> Seq<Capture> {
    Seq::new(
        body_frame_count(letters),
        |k: int|
            if k < 56 {
                Capture::Body { crouched, letter: letter_at(k / 8), rotation: (k % 8 + 1) as u8 }
            } else {
                Capture::Body { crouched, letter: letter_at(k - 49), rotation: 0 }
            },
    )
}

/// The number of frames of the first `letters` letters of the whole
/// puppet.
pub open spec fn body_frame_count(letters: int) -> nat {
    if letters <= 0 {
        0
    } else if letters <= 7 {
        (8 * letters) as nat
    } else {
        (56 + (letters - 7)) as nat
    }
}

/// The frames of two scripts that follow each other are the frames of the
/// first followed by the frames of the second.
pub proof fn lemma_frames_of_both(first: Seq<Step>, second: Seq<Step>)
    ensures
        frames(first + second) == frames(first) + frames(second),
    decreases second.len(),
{
    if second.len() == 0 {
        assert(first + second =~= first);
        assert(frames(first) + frames(second) =~= frames(first));
    } else {
        assert((first + second).drop_last() =~= first + second.drop_last());
        assert((first + second).last() == second.last());
        lemma_frames_of_both(first, second.drop_last());
        assert(frames(first + second) =~= frames(first) + frames(second));
    }
}

/// A script of one step has the frame of the step, if it captures one.
pub proof fn lemma_frames_of_one(step: Step)
    ensures
        frames(seq![step]) == match step {
            Step::Capture(capture) => seq![capture],
            _ => Seq::<Capture>::empty(),
        },
{
    assert(seq![step].drop_last() =~= Seq::<Step>::empty());
    assert(frames(seq![step].drop_last()) =~= Seq::<Capture>::empty());
    assert(seq![step].last() == step);
    match step {
        Step::Capture(capture) => {
            assert(Seq::<Capture>::empty().push(capture) =~= seq![capture]);
        },
        _ => {},
    }
}

/// A script of two steps has the frames of both.
pub proof fn lemma_frames_of_two(first: Step, second: Step)
    ensures
        frames(seq![first, second]) == frames(seq![first]) + frames(seq![second]),
{
    assert(seq![first, second] =~= seq![first] + seq![second]);
    lemma_frames_of_both(seq![first], seq![second]);
}

/// The first `sides` views of a letter are its frames with the digits 1 to
/// `sides`.
pub proof fn lemma_fan_frames(crouched: bool, letter: char, sides: int)
    requires
        0 <= sides <= 8,
    ensures
        frames(fan(crouched, letter, sides)) == Seq::new(
            sides as nat,
            |r: int| Capture::Body { crouched, letter, rotation: (r + 1) as u8 },
        ),
    decreases sides,
{
    let expected = Seq::new(
        sides as nat,
        |r: int| Capture::Body { crouched, letter, rotation: (r + 1) as u8 },
    );
    if sides == 0 {
        assert(frames(fan(crouched, letter, sides)) =~= expected);
    } else {
        let capture = Step::Capture(Capture::Body { crouched, letter, rotation: sides as u8 });
        lemma_fan_frames(crouched, letter, sides - 1);
        lemma_frames_of_both(fan(crouched, letter, sides - 1), seq![capture, Step::TurnCamera]);
        lemma_frames_of_two(capture, Step::TurnCamera);
        lemma_frames_of_one(capture);
        lemma_frames_of_one(Step::TurnCamera);
        assert(frames(fan(crouched, letter, sides)) =~= expected);
    }
}

/// A letter up to `G` has eight frames, with the digits 1 to 8 in order. A
/// letter after `G` has one frame, with the digit 0.
pub proof fn lemma_letter_frames(crouched: bool, letter: char)
    ensures
        frames(letter_steps(crouched, letter)) == if fans_out(letter) {
            Seq::new(8, |r: int| Capture::Body { crouched, letter, rotation: (r + 1) as u8 })
        } else {
            seq![Capture::Body { crouched, letter, rotation: 0 }]
        },
{
    let pose = Step::Pose { pose: pose_of(letter), crouched };
    lemma_frames_of_one(pose);
    if fans_out(letter) {
        lemma_frames_of_both(seq![pose], fan(crouched, letter, 8));
        lemma_fan_frames(crouched, letter, 8);
        assert(frames(letter_steps(crouched, letter)) =~= Seq::new(
            8,
            |r: int| Capture::Body { crouched, letter, rotation: (r + 1) as u8 },
        ));
    } else {
        let capture = Step::Capture(Capture::Body { crouched, letter, rotation: 0 });
        lemma_frames_of_both(seq![pose], seq![capture]);
        lemma_frames_of_one(capture);
        assert(frames(letter_steps(crouched, letter)) =~= seq![
            Capture::Body { crouched, letter, rotation: 0 },
        ]);
    }
}

/// The frames of the first `letters` letters of the whole puppet.
pub proof fn lemma_body_frames(crouched: bool, letters: int)
    requires
        0 <= letters <= 23,
    ensures
        frames(body_steps(crouched, letters)) == body_frames(crouched, letters),
    decreases letters,
{
    if letters == 0 {
        assert(frames(body_steps(crouched, letters)) =~= body_frames(crouched, letters));
    } else {
        let letter = letter_at(letters - 1);
        lemma_body_frames(crouched, letters - 1);
        lemma_frames_of_both(body_steps(crouched, letters - 1), letter_steps(crouched, letter));
        lemma_letter_frames(crouched, letter);
        assert(frames(body_steps(crouched, letters)) =~= body_frames(crouched, letters));
    }
}

/// The standing puppet is captured in 72 frames: the letters `A` to `G`
/// eight times each, with the digits 1 to 8, and the letters `H` to `W`
/// once each, with the digit 0.
pub proof fn lemma_skin_frames()
    ensures
        frames(skin_script()) == body_frames(false, 23),
        frames(skin_script()).len() == 7 * 8 + 16 * 1,
        forall|k: int|
            0 <= k < 56 ==> #[trigger] frames(skin_script())[k] == (Capture::Body {
                crouched: false,
                letter: letter_at(k / 8),
                rotation: (k % 8 + 1) as u8,
            }),
        forall|k: int|
            56 <= k < 72 ==> #[trigger] frames(skin_script())[k] == (Capture::Body {
                crouched: false,
                letter: letter_at(k - 49),
                rotation: 0,
            }),
{
    let begin = Step::Begin(SpriteClass::Sprites);
    lemma_frames_of_one(begin);
    lemma_frames_of_both(seq![begin], body_steps(false, 23));
    lemma_body_frames(false, 23);
    assert(frames(skin_script()) =~= body_frames(false, 23));
}

/// The crouched puppet is captured in 56 frames: the letters `A` to `G`
/// eight times each, with the digits 1 to 8.
pub proof fn lemma_crouch_frames()
    ensures
        frames(crouch_script()) == body_frames(true, 7),
        frames(crouch_script()).len() == 7 * 8,
{
    let begin = Step::Begin(SpriteClass::CrouchSprites);
    lemma_frames_of_one(begin);
    lemma_frames_of_both(seq![begin], body_steps(true, 7));
    lemma_body_frames(true, 7);
    assert(frames(crouch_script()) =~= body_frames(true, 7));
}

/// The angle of the fall grows by the same amount from letter to letter:
/// at the letter `k` places after `H` it is `k + 1` sevenths of a quarter
/// turn, and at the letter `k` places after `O` it is `k + 1` ninths. Each
/// angle is given in full, so no frame depends on the frame before.
pub proof fn lemma_sweep_angles(letter: char)
    requires
        'H' <= letter <= 'W',
    ensures
        pose_of(letter) matches PoseStep::YawSweep(angle) && angle.wf() && if letter <= 'N' {
            angle == sweep_angle(letter as u32 - 'H' as u32 + 1, 7) && 7 * angle.numerator() == 90
                * (letter as u32 - 'H' as u32 + 1) * angle.denominator()
        } else {
            angle == sweep_angle(letter as u32 - 'O' as u32 + 1, 9) && 9 * angle.numerator() == 90
                * (letter as u32 - 'O' as u32 + 1) * angle.denominator()
        },
{
    let (first, parts): (char, int) = if letter <= 'N' {
        ('H', 7)
    } else {
        ('O', 9)
    };
    let step = letter as u32 - first as u32 + 1;
    let angle = sweep_angle(step, parts);
    assert(parts * angle.numerator() == 90 * step * angle.denominator()) by (nonlinear_arith)
        requires
            angle.numerator() == angle.span * angle.steps,
            angle.span == 90,
            angle.steps == step,
            angle.denominator() == parts,
    ;
}

/// Both falls end flat on the ground, at a quarter turn. The first starts
/// at a seventh of it and the second at ten degrees.
pub proof fn lemma_sweep_ends()
    ensures
        pose_of('H') == PoseStep::YawSweep(Angle { span: 90, parts: 7, steps: 1 }),
        pose_of('N') matches PoseStep::YawSweep(angle) && angle.same_as(Angle::degrees(90)),
        pose_of('O') matches PoseStep::YawSweep(angle) && angle.same_as(Angle::degrees(10)),
        pose_of('W') matches PoseStep::YawSweep(angle) && angle.same_as(Angle::degrees(90)),
{
    assert(sweep_angle(7, 7).same_as(Angle::degrees(90))) by (nonlinear_arith)
        requires
            sweep_angle(7, 7).same_as(Angle::degrees(90)) <==> 90 * 7 * 1 == 90 * 1 * 7,
    ;
    assert(sweep_angle(1, 9).same_as(Angle::degrees(10))) by (nonlinear_arith)
        requires
            sweep_angle(1, 9).same_as(Angle::degrees(10)) <==> 90 * 1 * 1 == 10 * 1 * 9,
    ;
    assert(sweep_angle(9, 9).same_as(Angle::degrees(90))) by (nonlinear_arith)
        requires
            sweep_angle(9, 9).same_as(Angle::degrees(90)) <==> 90 * 9 * 1 == 90 * 1 * 9,
    ;
}

/// The fist is captured in nine frames, one for each of the letters `A` to
/// `I`.
pub proof fn lemma_fist_frames()
    ensures
        frames(fist_script()) == Seq::new(9, |k: int| Capture::Fist { letter: letter_at(k) }),
{
    let begin = Step::Begin(SpriteClass::Fist);
    let head = seq![begin, Step::FlipCamera, Step::MoveCamera(FIST_CAMERA)];
    assert(head =~= seq![begin, Step::FlipCamera] + seq![
        Step::MoveCamera(FIST_CAMERA),
    ]);
    lemma_frames_of_both(
        seq![begin, Step::FlipCamera],
        seq![Step::MoveCamera(FIST_CAMERA)],
    );
    lemma_frames_of_two(begin, Step::FlipCamera);
    lemma_frames_of_one(begin);
    lemma_frames_of_one(Step::FlipCamera);
    lemma_frames_of_one(Step::MoveCamera(FIST_CAMERA));
    lemma_frames_of_both(head, fist_steps(9));
    lemma_fist_letters(9);
    assert(frames(fist_script()) =~= Seq::new(9, |k: int| Capture::Fist { letter: letter_at(k) }));
}

/// The frames of the first `letters` letters of the fist.
proof fn lemma_fist_letters(letters: int)
    requires
        0 <= letters,
    ensures
        frames(fist_steps(letters)) == Seq::new(
            letters as nat,
            |k: int| Capture::Fist { letter: letter_at(k) },
        ),
    decreases letters,
{
    let expected = Seq::new(letters as nat, |k: int| Capture::Fist { letter: letter_at(k) });
    if letters == 0 {
        assert(frames(fist_steps(letters)) =~= expected);
    } else {
        let pitch = Step::Part(
            PartStep::RotateTwice(
                Turn::new(
                    Axis::X,
                    fist_pitch(letter_at(letters - 1)),
                ),
                Turn::new(Axis::Y, FIST_YAW),
            ),
        );
        let capture = Step::Capture(Capture::Fist { letter: letter_at(letters - 1) });
        lemma_fist_letters(letters - 1);
        lemma_frames_of_both(fist_steps(letters - 1), seq![pitch, capture]);
        lemma_frames_of_two(pitch, capture);
        lemma_frames_of_one(pitch);
        lemma_frames_of_one(capture);
        assert(frames(fist_steps(letters)) =~= expected);
    }
}

/// The number of frames of a mood: one for the dead and the godlike head,
/// fifteen for the head that looks straight on and five for every other.
pub open spec fn mood_frame_count(mood: Mood) -> nat {
    match mood {
        Mood::Dead | Mood::God => 1,
        Mood::Straight => 15,
        _ => 5,
    }
}

/// The first `levels` frames of a mood that nods.
proof fn lemma_nod_frames(mood: Mood, levels: int)
    requires
        0 <= levels,
    ensures
        frames(nod_frames(mood, levels)) == Seq::new(
            levels as nat,
            |i: int| Capture::Face { mood, frame: i as u8 },
        ),
    decreases levels,
{
    let expected = Seq::new(levels as nat, |i: int| Capture::Face { mood, frame: i as u8 });
    if levels == 0 {
        assert(frames(nod_frames(mood, levels)) =~= expected);
    } else {
        let red = Step::Part(PartStep::Red(red_level(levels - 1)));
        let capture = Step::Capture(Capture::Face { mood, frame: (levels - 1) as u8 });
        lemma_nod_frames(mood, levels - 1);
        lemma_frames_of_both(nod_frames(mood, levels - 1), seq![red, capture]);
        lemma_frames_of_two(red, capture);
        lemma_frames_of_one(red);
        lemma_frames_of_one(capture);
        assert(frames(nod_frames(mood, levels)) =~= expected);
    }
}

/// The first `levels` frames of a head that is turned to a side.
proof fn lemma_side_frames(mood: Mood, levels: int)
    requires
        0 <= levels,
    ensures
        frames(side_frames(mood, levels)) == Seq::new(
            levels as nat,
            |i: int| Capture::HurtFace { mood, level: i as u8, frame: 0 },
        ),
    decreases levels,
{
    let expected = Seq::new(
        levels as nat,
        |i: int| Capture::HurtFace { mood, level: i as u8, frame: 0 },
    );
    if levels == 0 {
        assert(frames(side_frames(mood, levels)) =~= expected);
    } else {
        let red = Step::Part(PartStep::Red(red_level(levels - 1)));
        let capture = Step::Capture(
            Capture::HurtFace { mood, level: (levels - 1) as u8, frame: 0 },
        );
        lemma_side_frames(mood, levels - 1);
        lemma_frames_of_both(side_frames(mood, levels - 1), seq![red, capture]);
        lemma_frames_of_two(red, capture);
        lemma_frames_of_one(red);
        lemma_frames_of_one(capture);
        assert(frames(side_frames(mood, levels)) =~= expected);
    }
}

/// The first `count` glances of the head that looks straight on, at one
/// level of damage.
proof fn lemma_glance_frames(level: int, count: int)
    requires
        0 <= count,
    ensures
        frames(glance_frames(level, count)) == Seq::new(
            count as nat,
            |y: int| Capture::HurtFace { mood: Mood::Straight, level: level as u8, frame: y as u8 },
        ),
    decreases count,
{
    let expected = Seq::new(
        count as nat,
        |y: int| Capture::HurtFace { mood: Mood::Straight, level: level as u8, frame: y as u8 },
    );
    if count == 0 {
        assert(frames(glance_frames(level, count)) =~= expected);
    } else {
        let turn = Step::Part(
            PartStep::Rotate(
                Turn::new(
                    Axis::Y,
                    glance(count - 1),
                ),
            ),
        );
        let capture = Step::Capture(
            Capture::HurtFace {
                mood: Mood::Straight,
                level: level as u8,
                frame: (count - 1) as u8,
            },
        );
        lemma_glance_frames(level, count - 1);
        lemma_frames_of_both(glance_frames(level, count - 1), seq![turn, capture]);
        lemma_frames_of_two(turn, capture);
        lemma_frames_of_one(turn);
        lemma_frames_of_one(capture);
        assert(frames(glance_frames(level, count)) =~= expected);
    }
}

/// The frames of the head that looks straight on for the first `levels`
/// levels of damage: three for each level, numbered 0 to 2 within it.
proof fn lemma_straight_frames(levels: int)
    requires
        0 <= levels,
    ensures
        frames(straight_frames(levels)) == Seq::new(
            (3 * levels) as nat,
            |k: int|
                Capture::HurtFace {
                    mood: Mood::Straight,
                    level: (k / 3) as u8,
                    frame: (k % 3) as u8,
                },
        ),
    decreases levels,
{
    let expected = Seq::new(
        (3 * levels) as nat,
        |k: int|
            Capture::HurtFace { mood: Mood::Straight, level: (k / 3) as u8, frame: (k % 3) as u8 },
    );
    if levels == 0 {
        assert(frames(straight_frames(levels)) =~= expected);
    } else {
        let red = Step::Part(PartStep::Red(red_level(levels - 1)));
        lemma_straight_frames(levels - 1);
        lemma_frames_of_both(straight_frames(levels - 1), seq![red]);
        lemma_frames_of_one(red);
        lemma_frames_of_both(
            straight_frames(levels - 1) + seq![red],
            glance_frames(levels - 1, 3),
        );
        lemma_glance_frames(levels - 1, 3);
        assert(frames(straight_frames(levels)) =~= expected);
    }
}

/// Every mood has the number of frames of [`mood_frame_count`], and
/// setting the head up captures nothing.
pub proof fn lemma_mood_frames(mood: Mood)
    ensures
        frames(mood_setup(mood)).len() == 0,
        frames(mood_frames(mood)).len() == mood_frame_count(mood),
{
    if mood_setup(mood).len() > 0 {
        assert(mood_setup(mood) =~= seq![mood_setup(mood)[0]]);
        lemma_frames_of_one(mood_setup(mood)[0]);
    }
    match mood {
        Mood::Dead | Mood::God => {
            lemma_frames_of_one(Step::Capture(Capture::Face { mood, frame: 0 }));
        },
        Mood::Evil | Mood::Kill | Mood::Ouch => {
            let upright = Step::Part(
                PartStep::Rotate(
                    Turn::new(Axis::X, 0),
                ),
            );
            lemma_nod_frames(mood, 5);
            lemma_frames_of_both(nod_frames(mood, 5), seq![upright]);
            lemma_frames_of_one(upright);
        },
        Mood::Straight => {
            lemma_straight_frames(5);
        },
        Mood::Left | Mood::Right => {
            lemma_side_frames(mood, 5);
        },
    }
}

/// The number of frames of the first `moods` moods.
pub open spec fn mood_frames_before(moods: int) -> nat
    decreases moods,
{
    if moods <= 0 {
        0
    } else {
        mood_frames_before(moods - 1) + mood_frame_count(mood_at(moods - 1))
    }
}

/// The frames of the first `moods` moods are as many as the moods have.
proof fn lemma_mood_steps(moods: int)
    requires
        0 <= moods,
    ensures
        frames(mood_steps(moods)).len() == mood_frames_before(moods),
    decreases moods,
{
    if moods > 0 {
        let mood = mood_at(moods - 1);
        lemma_mood_steps(moods - 1);
        lemma_mood_frames(mood);
        lemma_frames_of_both(mood_steps(moods - 1), mood_setup(mood));
        lemma_frames_of_both(mood_steps(moods - 1) + mood_setup(mood), mood_frames(mood));
    } else {
        assert(frames(mood_steps(moods)) =~= Seq::<Capture>::empty());
    }
}

/// The head is captured in 42 frames.
pub proof fn lemma_mugshot_frames()
    ensures
        frames(mugshot_script()).len() == 1 + 5 + 1 + 5 + 5 + 15 + 5 + 5,
{
    let back = Step::MoveCamera(MUGSHOT_CAMERA);
    let begin = Step::Begin(SpriteClass::Mugshot);
    lemma_frames_of_two(back, begin);
    lemma_frames_of_one(back);
    lemma_frames_of_one(begin);
    lemma_frames_of_both(seq![back, begin], mood_steps(8));
    lemma_mood_steps(8);
    assert(mood_frames_before(8) == 42) by {
        reveal_with_fuel(mood_frames_before, 9);
    }
}

} // verus!
