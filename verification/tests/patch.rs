use craftwad::geometry::Vec3;
use craftwad::patch::{Direction, Patch};

#[test]
fn patch_faces_of_the_head() {
    let head = Patch::head();
    assert_eq!(head, Patch::new(8, 8, 8, 8, 8));
    assert_eq!(head.as_right(), Patch::new(16, 8, 8, 8, 8));
    assert_eq!(head.as_back(), Patch::new(24, 8, 8, 8, 8));
    assert_eq!(head.as_left(), Patch::new(0, 8, 8, 8, 8));
    assert_eq!(head.as_top(), Patch::new(8, 0, 8, 8, 8));
    assert_eq!(head.as_bottom(), Patch::new(16, 0, 8, 8, 8));
}

#[test]
fn patch_faces_of_the_torso_swap_width_and_depth() {
    let torso = Patch::torso();
    assert_eq!(torso, Patch::new(20, 20, 8, 12, 4));
    assert_eq!(torso.as_right(), Patch::new(28, 20, 4, 12, 8));
    assert_eq!(torso.as_back(), Patch::new(32, 20, 8, 12, 4));
    assert_eq!(torso.as_left(), Patch::new(16, 20, 4, 12, 8));
    assert_eq!(torso.as_top(), Patch::new(20, 16, 8, 4, 12));
    assert_eq!(torso.as_bottom(), Patch::new(28, 16, 8, 4, 12));
}

#[test]
fn patch_derivation_gives_the_same_face_every_time() {
    let patches = [
        Patch::head(),
        Patch::torso(),
        Patch::right_leg(),
        Patch::right_arm(),
        Patch::slim_right_arm(),
        Patch::left_leg(),
        Patch::left_arm(),
        Patch::slim_left_arm(),
        Patch::helmet(),
        Patch::shirt(),
        Patch::right_pants(),
        Patch::right_sleeve(),
        Patch::slim_right_sleeve(),
        Patch::left_pants(),
        Patch::left_sleeve(),
        Patch::slim_left_sleeve(),
    ];
    for patch in patches {
        for direction in Direction::all() {
            assert_eq!(patch.as_face(direction), patch.as_face(direction));
        }
        assert_eq!(patch.as_right(), patch.as_right());
        assert_eq!(patch.as_right().as_left(), patch);
        assert!(patch.does_unfold_within(64, 64));
    }
}

#[test]
fn patch_named_regions() {
    assert_eq!(Patch::right_leg(), Patch::new(4, 20, 4, 12, 4));
    assert_eq!(Patch::right_arm(), Patch::new(44, 20, 4, 12, 4));
    assert_eq!(Patch::slim_right_arm(), Patch::new(44, 20, 3, 12, 4));
    assert_eq!(Patch::left_leg(), Patch::new(20, 52, 4, 12, 4));
    assert_eq!(Patch::left_arm(), Patch::new(36, 52, 4, 12, 4));
    assert_eq!(Patch::slim_left_arm(), Patch::new(36, 52, 3, 12, 4));
    assert_eq!(Patch::helmet(), Patch::new(40, 8, 8, 8, 8));
    assert_eq!(Patch::shirt(), Patch::new(20, 36, 8, 12, 4));
    assert_eq!(Patch::right_pants(), Patch::new(4, 36, 4, 12, 4));
    assert_eq!(Patch::right_sleeve(), Patch::new(44, 36, 4, 12, 4));
    assert_eq!(Patch::slim_right_sleeve(), Patch::new(44, 36, 3, 12, 4));
    assert_eq!(Patch::left_pants(), Patch::new(4, 52, 4, 12, 4));
    assert_eq!(Patch::left_sleeve(), Patch::new(52, 52, 4, 12, 4));
    assert_eq!(Patch::slim_left_sleeve(), Patch::new(52, 52, 3, 12, 4));
}

#[test]
fn patch_half_size_counts_half_pixels() {
    assert_eq!(Patch::torso().half_size(), Vec3::new(8, 12, 4));
    assert_eq!(Patch::slim_left_arm().half_size(), Vec3::new(3, 12, 4));
}

#[test]
fn patch_bounds() {
    let helmet = Patch::helmet();
    assert!(helmet.is_within(48, 16));
    assert!(!helmet.is_within(47, 16));
    assert!(!helmet.is_within(48, 15));
    assert!(helmet.does_unfold_within(64, 16));
    assert!(!helmet.does_unfold_within(63, 16));
    assert!(!helmet.does_unfold_within(64, 15));
    assert!(!Patch::new(3, 8, 4, 4, 4).does_unfold_within(64, 64));
    assert!(!Patch::new(8, 3, 4, 4, 4).does_unfold_within(64, 64));
    assert!(!Patch::new(u32::MAX, 8, 4, 4, 4).does_unfold_within(u32::MAX, 64));
    assert!(!Patch::new(u32::MAX, u32::MAX, 1, 1, 0).is_within(u32::MAX, u32::MAX));
}

#[test]
fn direction_order() {
    let all = Direction::all();
    assert_eq!(all[0], Direction::Front);
    assert_eq!(all[5], Direction::Bottom);
    for (i, direction) in all.iter().enumerate() {
        assert_eq!(direction.index() as usize, i);
    }
}
