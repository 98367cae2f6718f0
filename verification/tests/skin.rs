use craftwad::atlas::Atlas;
use craftwad::color::Rgba;
use craftwad::geometry::{Angle, Axis, Turn, Vec3};
use craftwad::patch::{Direction, Patch};
use craftwad::skin::{
    PoseStep, Skin, HEAD, HELMET, LEFT_ARM, LEFT_LEG, LEFT_PANTS, LEFT_SLEEVE, RIGHT_ARM,
    RIGHT_LEG, RIGHT_PANTS, RIGHT_SLEEVE, SHIRT, TORSO,
};

fn fill(data: &mut Vec<u8>, region: Patch, color: [u8; 4]) {
    for y in region.y..region.y + region.height {
        for x in region.x..region.x + region.width {
            let first = ((y * 64 + x) * 4) as usize;
            data[first..first + 4].copy_from_slice(&color);
        }
    }
}

fn atlas_with(parts: &[(Patch, [u8; 4])], probe: u8) -> Atlas {
    let mut data = vec![0; 64 * 64 * 4];
    for (patch, color) in parts {
        for direction in Direction::all() {
            fill(&mut data, patch.as_face(direction), *color);
        }
    }
    data[(20 * 64 + 55) * 4 + 3] = probe;
    Atlas::from_rgba(64, 64, data).unwrap()
}

fn wide() -> Atlas {
    atlas_with(&[], 255)
}

fn slim() -> Atlas {
    atlas_with(&[], 0)
}

fn rest() -> (Vec3, Vec<Turn>) {
    (Vec3::zero(), Vec::new())
}

fn swing(pivot: Vec3, degrees: i32) -> (Vec3, Vec<Turn>) {
    (pivot, vec![Turn::new(Axis::X, degrees)])
}

fn poses(skin: &Skin) -> Vec<(Vec3, Vec<Turn>)> {
    for i in 0..6 {
        assert_eq!(skin.limbs[i].pose.pivot, skin.trim[i].pose.pivot);
        assert_eq!(skin.limbs[i].pose.turns, skin.trim[i].pose.turns);
    }
    skin.limbs.iter().map(|limb| (limb.pose.pivot, limb.pose.turns.clone())).collect()
}

#[test]
fn skin_with_wide_arms() {
    let skin = Skin::load(&wide(), "PLAY");
    let names = ["PLAYHead", "PLAYTorso", "PLAYRightLeg", "PLAYRightArm", "PLAYLeftLeg", "PLAYLeftArm"];
    let offsets = [(0, 110), (0, 20), (-20, -100), (-60, 20), (20, -100), (60, 20)];
    let patches = [
        Patch::head(),
        Patch::torso(),
        Patch::right_leg(),
        Patch::right_arm(),
        Patch::left_leg(),
        Patch::left_arm(),
    ];
    for i in 0..6 {
        assert_eq!(skin.limbs[i].name, names[i]);
        assert_eq!(skin.limbs[i].offset, Vec3::new(offsets[i].0, offsets[i].1, 0));
        assert_eq!(skin.trim[i].offset, Vec3::new(offsets[i].0, offsets[i].1, 0));
        assert_eq!(skin.limbs[i].faces[0].region, patches[i]);
        assert_eq!(skin.limbs[i].tint, Rgba::white());
        assert_eq!(skin.trim[i].tint, Rgba::white());
    }
    let layers = ["PLAYHelmet", "PLAYShirt", "PLAYRightPants", "PLAYRightSleeve", "PLAYLeftPants", "PLAYLeftSleeve"];
    for i in 0..6 {
        assert_eq!(skin.trim[i].name, layers[i]);
    }
    assert_eq!(poses(&skin), vec![rest(); 6]);
}

#[test]
fn skin_with_slim_arms() {
    let skin = Skin::load(&slim(), "S");
    assert_eq!(skin.limbs[RIGHT_ARM].faces[0].region, Patch::slim_right_arm());
    assert_eq!(skin.limbs[LEFT_ARM].faces[0].region, Patch::slim_left_arm());
    assert_eq!(skin.limbs[RIGHT_ARM].offset, Vec3::new(-55, 20, 0));
    assert_eq!(skin.limbs[LEFT_ARM].offset, Vec3::new(55, 20, 0));
    assert_eq!(skin.trim[RIGHT_SLEEVE].offset, Vec3::new(-60, 20, 0));
    assert_eq!(skin.trim[LEFT_SLEEVE].offset, Vec3::new(60, 20, 0));
    assert_eq!(skin.limbs[RIGHT_ARM].faces[0].pixels.len(), 36);
    assert_eq!(skin.limbs[RIGHT_LEG].faces[0].region, Patch::right_leg());
    assert_eq!(skin.limbs[HEAD].offset, Vec3::new(0, 110, 0));
}

#[test]
fn skin_probe_counts_as_empty_below_ten() {
    assert_eq!(Skin::load(&atlas_with(&[], 9), "S").limbs[RIGHT_ARM].faces[0].region.width, 3);
    assert_eq!(Skin::load(&atlas_with(&[], 10), "S").limbs[RIGHT_ARM].faces[0].region.width, 4);
}

#[test]
fn skin_sleeves_follow_the_arms_in_width() {
    let sleeve = [1, 2, 3, 255];
    let thin = atlas_with(&[(Patch::slim_right_sleeve(), sleeve)], 0);
    let skin = Skin::load(&thin, "S");
    assert_eq!(skin.trim[RIGHT_SLEEVE].texels.len(), 2 * 36 + 2 * 48 + 2 * 12);
    let thick = atlas_with(&[(Patch::right_sleeve(), sleeve)], 255);
    let skin = Skin::load(&thick, "S");
    assert_eq!(skin.trim[RIGHT_SLEEVE].texels.len(), 4 * 48 + 2 * 16);
    assert!(skin.trim[LEFT_SLEEVE].texels.is_empty());
}

#[test]
fn skin_with_a_red_torso_only() {
    let atlas = atlas_with(&[(Patch::torso(), [255, 0, 0, 255])], 255);
    let skin = Skin::load(&atlas, "PLAY");
    for face in &skin.limbs[TORSO].faces {
        assert!(!face.pixels.is_empty());
        assert!(face.pixels.iter().all(|pixel| *pixel == Rgba::new(255, 0, 0, 255)));
    }
    for i in [HEAD, RIGHT_LEG, LEFT_LEG, LEFT_ARM] {
        for face in &skin.limbs[i].faces {
            assert!(face.pixels.iter().all(|pixel| pixel.a == 0));
        }
    }
    for layer in &skin.trim {
        assert!(layer.texels.is_empty());
    }
    assert_eq!(skin.limbs[TORSO].faces[0].corners.top_right, Vec3::new(8, 12, 4));
    assert_eq!(skin.limbs[TORSO].faces[2].corners.top_right, Vec3::new(-8, 12, -4));
    assert_eq!(skin.limbs[TORSO].offset, Vec3::new(0, 20, 0));
}

#[test]
fn crouch_moves_the_head_without_leaning_it() {
    let mut skin = Skin::load_crouched(&wide(), "PLAY");
    assert_eq!(skin.limbs[HEAD].offset, Vec3::new(0, 90, 30));
    assert_eq!(skin.trim[HELMET].offset, Vec3::new(0, 90, 30));
    assert_eq!(poses(&skin), vec![rest(); 6]);
    skin.reset_crouched();
    assert_eq!(poses(&skin)[HEAD], rest());
    assert_eq!(skin.limbs[HEAD].offset, Vec3::new(0, 90, 30));
}

#[test]
fn crouch_moves_and_leans_the_upper_body() {
    let mut skin = Skin::load_crouched(&wide(), "PLAY");
    assert_eq!(skin.limbs[TORSO].offset, Vec3::new(0, 20, 18));
    assert_eq!(skin.trim[SHIRT].offset, Vec3::new(0, 20, 18));
    assert_eq!(skin.limbs[RIGHT_ARM].offset, Vec3::new(-60, 20, 18));
    assert_eq!(skin.limbs[LEFT_ARM].offset, Vec3::new(60, 20, 18));
    assert_eq!(skin.trim[RIGHT_SLEEVE].offset, Vec3::new(-60, 20, 16));
    assert_eq!(skin.trim[LEFT_SLEEVE].offset, Vec3::new(60, 20, 16));
    assert_eq!(skin.limbs[RIGHT_LEG].offset, Vec3::new(-20, -100, 0));
    assert_eq!(skin.limbs[LEFT_LEG].offset, Vec3::new(20, -100, 0));
    assert_eq!(skin.trim[RIGHT_PANTS].offset, Vec3::new(-20, -100, 0));
    assert_eq!(skin.trim[LEFT_PANTS].offset, Vec3::new(20, -100, 0));
    skin.reset_crouched();
    let lean = swing(Vec3::new(0, 20, 0), 30);
    assert_eq!(poses(&skin), vec![rest(), lean.clone(), rest(), lean.clone(), rest(), lean]);
}

#[test]
fn crouch_places_slim_sleeves_from_the_arms() {
    let skin = Skin::load_crouched(&slim(), "PLAY");
    assert_eq!(skin.limbs[RIGHT_ARM].offset, Vec3::new(-55, 20, 18));
    assert_eq!(skin.limbs[LEFT_ARM].offset, Vec3::new(55, 20, 18));
    assert_eq!(skin.trim[RIGHT_SLEEVE].offset, Vec3::new(-55, 20, 16));
    assert_eq!(skin.trim[LEFT_SLEEVE].offset, Vec3::new(55, 20, 16));
}

#[test]
fn crouch_constants() {
    assert_eq!(Skin::crouch_head_offset(), Vec3::new(0, -20, 30));
    assert_eq!(Skin::crouch_torso_offset(), Vec3::new(0, 0, 18));
    assert_eq!(Skin::crouch_sleeve_offset(), Vec3::new(0, 0, -20));
    assert_eq!(Skin::crouch_pivot(), Vec3::new(0, 20, 0));
    assert_eq!(Skin::crouch_right_shoulder(), Vec3::new(-60, 20, 20));
    assert_eq!(Skin::crouch_left_shoulder(), Vec3::new(-60, 20, 20));
    assert_eq!(Skin::right_joint(), Vec3::new(-60, -40, 0));
    assert_eq!(Skin::left_joint(), Vec3::new(-60, -40, 0));
    assert_eq!(Skin::right_shoulder(), Vec3::new(-60, 40, 0));
    assert_eq!(Skin::left_shoulder(), Vec3::new(-60, 40, 0));
    assert_eq!(Skin::sweep_pivot(), Vec3::new(0, -110, 0));
}

#[test]
fn flap_swings_legs_against_arms() {
    let mut skin = Skin::load(&wide(), "PLAY");
    let hip = Vec3::new(-60, -40, 0);
    let shoulder = Vec3::new(-60, 40, 0);
    skin.flap_right_arm_and_leg();
    assert_eq!(
        poses(&skin),
        vec![rest(), rest(), swing(hip, 30), swing(shoulder, -30), swing(hip, -30), swing(shoulder, 30)]
    );
    skin.flap_left_arm_and_leg();
    assert_eq!(
        poses(&skin),
        vec![rest(), rest(), swing(hip, -30), swing(shoulder, 30), swing(hip, 30), swing(shoulder, -30)]
    );
    skin.flap_left_arm_and_leg();
    assert_eq!(poses(&skin)[RIGHT_LEG], swing(hip, -30));
}

#[test]
fn flap_keeps_what_it_does_not_move() {
    let mut skin = Skin::load(&wide(), "PLAY");
    skin.rotate_around(Vec3::new(0, -110, 0), Axis::NegZ, Angle::degrees(90));
    skin.flap_right_arm_and_leg();
    let fallen = (Vec3::new(0, -110, 0), vec![Turn::new(Axis::NegZ, 90)]);
    assert_eq!(poses(&skin)[HEAD], fallen);
    assert_eq!(poses(&skin)[TORSO], fallen);
    assert_eq!(poses(&skin)[LEFT_LEG], swing(Vec3::new(-60, -40, 0), -30));
}

#[test]
fn flap_of_the_crouched_puppet_uses_its_shoulders() {
    let mut skin = Skin::load_crouched(&wide(), "PLAY");
    skin.reset_crouched();
    let hip = Vec3::new(-60, -40, 0);
    let shoulder = Vec3::new(-60, 20, 20);
    let lean = swing(Vec3::new(0, 20, 0), 30);
    skin.flap_right_arm_and_leg_crouched();
    assert_eq!(
        poses(&skin),
        vec![rest(), lean.clone(), swing(hip, 30), swing(shoulder, -30), swing(hip, -30), swing(shoulder, 30)]
    );
    skin.flap_left_arm_and_leg_crouched();
    assert_eq!(
        poses(&skin),
        vec![rest(), lean, swing(hip, -30), swing(shoulder, 30), swing(hip, 30), swing(shoulder, -30)]
    );
}

#[test]
fn punch_raises_the_right_arm() {
    let mut skin = Skin::load(&wide(), "PLAY");
    skin.flap_right_arm_and_leg();
    skin.punch('E');
    let shoulder = Vec3::new(-60, 40, 0);
    let half = (shoulder, vec![Turn::new(Axis::X, -40), Turn::new(Axis::Z, -13)]);
    assert_eq!(poses(&skin), vec![rest(), rest(), rest(), half, rest(), rest()]);
    skin.punch('F');
    let full = (shoulder, vec![Turn::new(Axis::X, -80), Turn::new(Axis::Z, -5)]);
    assert_eq!(poses(&skin), vec![rest(), rest(), rest(), full, rest(), rest()]);
}

#[test]
fn punch_of_the_crouched_puppet() {
    let mut skin = Skin::load_crouched(&wide(), "PLAY");
    skin.punch_crouched('F');
    let lean = swing(Vec3::new(0, 20, 0), 30);
    let full = (Vec3::new(-60, 20, 20), vec![Turn::new(Axis::X, -80), Turn::new(Axis::Z, -5)]);
    assert_eq!(poses(&skin), vec![rest(), lean.clone(), rest(), full, rest(), lean]);
}

#[test]
fn red_tint_rests_and_stays() {
    let mut skin = Skin::load(&wide(), "PLAY");
    skin.flap_left_arm_and_leg();
    skin.apply_red(70);
    assert_eq!(poses(&skin), vec![rest(); 6]);
    for i in 0..6 {
        assert_eq!(skin.limbs[i].tint, Rgba::new(255, 70, 70, 255));
        assert_eq!(skin.trim[i].tint, Rgba::new(255, 70, 70, 255));
    }
    skin.rotate_around(Vec3::new(0, -110, 0), Axis::NegZ, Angle { span: 90, parts: 7, steps: 1 });
    assert_eq!(skin.limbs[HEAD].tint, Rgba::new(255, 70, 70, 255));
    skin.reset();
    assert_eq!(skin.trim[SHIRT].tint, Rgba::new(255, 70, 70, 255));
}

#[test]
fn red_tint_of_the_crouched_puppet() {
    let mut skin = Skin::load_crouched(&wide(), "PLAY");
    skin.apply_red_crouched(70);
    let lean = swing(Vec3::new(0, 20, 0), 30);
    assert_eq!(poses(&skin), vec![rest(), lean.clone(), rest(), lean.clone(), rest(), lean]);
    assert_eq!(skin.limbs[LEFT_LEG].tint, Rgba::new(255, 70, 70, 255));
}

#[test]
fn fall_turns_every_part_alike() {
    let mut skin = Skin::load(&wide(), "PLAY");
    skin.punch('E');
    let angle = Angle { span: 90, parts: 9, steps: 4 };
    skin.rotate_around(Vec3::new(0, -110, 0), Axis::NegZ, angle);
    let fallen = (Vec3::new(0, -110, 0), vec![Turn { axis: Axis::NegZ, angle }]);
    assert_eq!(poses(&skin), vec![fallen; 6]);
}

#[test]
fn strike_is_absolute() {
    let mut first = Skin::load(&wide(), "PLAY");
    let mut second = Skin::load(&wide(), "PLAY");
    first.flap_right_arm_and_leg();
    second.punch('F');
    let steps = [
        PoseStep::Reset,
        PoseStep::Punch('E'),
        PoseStep::DamageTint(70),
        PoseStep::YawSweep(Angle { span: 90, parts: 7, steps: 3 }),
    ];
    for step in steps {
        assert!(step.is_wf());
        first.strike(step, false);
        second.strike(step, false);
        assert_eq!(poses(&first), poses(&second));
        let once = poses(&first);
        first.strike(step, false);
        assert_eq!(poses(&first), once);
    }
    assert!(!PoseStep::Punch('G').is_wf());
}

#[test]
fn strike_picks_the_pose() {
    let mut skin = Skin::load_crouched(&wide(), "PLAY");
    skin.strike(PoseStep::Reset, true);
    let lean = swing(Vec3::new(0, 20, 0), 30);
    assert_eq!(poses(&skin)[TORSO], lean);
    skin.strike(PoseStep::FlapRight, true);
    assert_eq!(poses(&skin)[RIGHT_ARM], swing(Vec3::new(-60, 20, 20), -30));
    skin.strike(PoseStep::FlapLeft, false);
    assert_eq!(poses(&skin)[RIGHT_ARM], swing(Vec3::new(-60, 40, 0), 30));
    skin.strike(PoseStep::DamageTint(70), true);
    assert_eq!(poses(&skin)[LEFT_ARM], lean);
    assert_eq!(skin.limbs[HEAD].tint, Rgba::red(70));
    skin.strike(PoseStep::YawSweep(Angle::degrees(10)), true);
    assert_eq!(poses(&skin)[HEAD], (Vec3::new(0, -110, 0), vec![Turn::new(Axis::NegZ, 10)]));
}
