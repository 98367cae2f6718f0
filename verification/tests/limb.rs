use craftwad::atlas::Atlas;
use craftwad::color::Rgba;
use craftwad::geometry::{Axis, Pose, Quad, Turn, Vec3};
use craftwad::limb::{Face, Limb};
use craftwad::patch::{Direction, Patch};

fn ramp(width: u32, height: u32) -> Atlas {
    let mut data = Vec::new();
    for y in 0..height {
        for x in 0..width {
            data.push(255);
            data.push(128);
            data.push((16 * y + x) as u8);
            data.push(200 + x as u8);
        }
    }
    Atlas::from_rgba(width, height, data).unwrap()
}

#[test]
fn face_samples_its_region_in_linear_light() {
    let atlas = ramp(12, 6);
    let patch = Patch::new(2, 2, 4, 3, 2);
    let face = Face::new_right(&atlas, patch);
    assert_eq!(face.direction, Direction::Right);
    assert_eq!(face.region, Patch::new(6, 2, 2, 3, 4));
    assert_eq!(face.pixels.len(), 6);
    for row in 0..3u32 {
        for column in 0..2u32 {
            let expected = atlas.pixel(6 + column, 2 + row).to_linear();
            assert_eq!(face.pixels[(row * 2 + column) as usize], expected);
            assert_eq!(expected.r, 255);
            assert_eq!(expected.g, 55);
            assert_eq!(expected.a, 206 + column as u8);
        }
    }
}

#[test]
fn face_corners_of_each_side() {
    let atlas = ramp(12, 6);
    let patch = Patch::new(2, 2, 4, 3, 2);
    let (x, y, z) = (4, 3, 2);
    let corner = |a: i64, b: i64, c: i64| Vec3::new(a, b, c);
    assert_eq!(
        Face::new_front(&atlas, patch).corners,
        Quad::new(corner(-x, -y, z), corner(x, -y, z), corner(x, y, z), corner(-x, y, z))
    );
    assert_eq!(
        Face::new_right(&atlas, patch).corners,
        Quad::new(corner(x, -y, z), corner(x, -y, -z), corner(x, y, -z), corner(x, y, z))
    );
    assert_eq!(
        Face::new_back(&atlas, patch).corners,
        Quad::new(corner(x, -y, -z), corner(-x, -y, -z), corner(-x, y, -z), corner(x, y, -z))
    );
    assert_eq!(
        Face::new_left(&atlas, patch).corners,
        Quad::new(corner(-x, -y, -z), corner(-x, -y, z), corner(-x, y, z), corner(-x, y, -z))
    );
    assert_eq!(
        Face::new_top(&atlas, patch).corners,
        Quad::new(corner(-x, y, z), corner(x, y, z), corner(x, y, -z), corner(-x, y, -z))
    );
    assert_eq!(
        Face::new_bottom(&atlas, patch).corners,
        Quad::new(corner(-x, -y, -z), corner(x, -y, -z), corner(x, -y, z), corner(-x, -y, z))
    );
}

#[test]
fn face_regions_of_each_side() {
    let atlas = ramp(12, 6);
    let patch = Patch::new(2, 2, 4, 3, 2);
    assert_eq!(Face::new_front(&atlas, patch).region, patch);
    assert_eq!(Face::new_back(&atlas, patch).region, Patch::new(8, 2, 4, 3, 2));
    assert_eq!(Face::new_left(&atlas, patch).region, Patch::new(0, 2, 2, 3, 4));
    assert_eq!(Face::new_top(&atlas, patch).region, Patch::new(2, 0, 4, 2, 3));
    assert_eq!(Face::new_bottom(&atlas, patch).region, Patch::new(6, 0, 4, 2, 3));
    assert_eq!(Face::new_top(&atlas, patch).pixels.len(), 8);
}

#[test]
fn limb_loads_six_faces_at_rest() {
    let atlas = ramp(12, 6);
    let patch = Patch::new(2, 2, 4, 3, 2);
    let limb = Limb::load(&atlas, "part".to_string(), patch, Vec3::new(-55, 20, 0));
    assert_eq!(limb.name, "part");
    assert_eq!(limb.offset, Vec3::new(-55, 20, 0));
    assert_eq!(limb.tint, Rgba::white());
    assert_eq!(limb.pose.pivot, Vec3::zero());
    assert!(limb.pose.turns.is_empty());
    for (i, direction) in Direction::all().iter().enumerate() {
        assert_eq!(limb.faces[i].direction, *direction);
        assert_eq!(limb.faces[i].region, patch.as_face(*direction));
    }
}

#[test]
fn limb_rotation_is_absolute() {
    let atlas = ramp(12, 6);
    let mut limb = Limb::load(&atlas, "part".to_string(), Patch::new(2, 2, 4, 3, 2), Vec3::zero());
    let swing = [Turn::new(Axis::X, 30)];
    let punch = [Turn::new(Axis::X, -40), Turn::new(Axis::Z, -13)];
    limb.rotate_around(Vec3::new(-60, 40, 0), &punch);
    limb.rotate_around(Vec3::new(-60, -40, 0), &swing);
    assert_eq!(limb.pose.pivot, Vec3::new(-60, -40, 0));
    assert_eq!(limb.pose.turns, swing.to_vec());
    limb.rotate_around(Vec3::new(-60, -40, 0), &swing);
    assert_eq!(limb.pose.turns, swing.to_vec());
    limb.set_transformation(Pose::rest());
    assert!(limb.pose.turns.is_empty());
    assert_eq!(limb.offset, Vec3::zero());
}

#[test]
fn limb_tint_leaves_the_pose() {
    let atlas = ramp(12, 6);
    let mut limb = Limb::load(&atlas, "part".to_string(), Patch::new(2, 2, 4, 3, 2), Vec3::zero());
    limb.rotate_around(Vec3::zero(), &[Turn::new(Axis::Y, 15)]);
    limb.apply_red(70);
    assert_eq!(limb.tint, Rgba::new(255, 70, 70, 255));
    assert_eq!(limb.pose.turns, vec![Turn::new(Axis::Y, 15)]);
    limb.apply_color(Rgba::new(255, 215, 0, 255));
    assert_eq!(limb.tint, Rgba::new(255, 215, 0, 255));
}

#[test]
fn pose_copies() {
    let pose = Pose::around(Vec3::new(1, 2, 3), &[Turn::new(Axis::NegZ, 90)]);
    let copy = pose.copy();
    assert_eq!(copy.pivot, Vec3::new(1, 2, 3));
    assert_eq!(copy.turns, pose.turns);
    assert_eq!(Axis::NegZ.vector(), Vec3::new(0, 0, -1));
    assert_eq!(Vec3::new(1, 2, 3).moved_by(Vec3::new(0, 0, 18)), Vec3::new(1, 2, 21));
    let quad = Quad::new(Vec3::zero(), Vec3::new(1, 0, 0), Vec3::new(1, 1, 0), Vec3::new(0, 1, 0));
    assert_eq!(quad.corners()[2], Vec3::new(1, 1, 0));
}
