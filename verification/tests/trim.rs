use craftwad::atlas::Atlas;
use craftwad::color::Rgba;
use craftwad::geometry::{Axis, Quad, Turn, Vec3};
use craftwad::patch::{Direction, Patch};
use craftwad::trim::{Texel, Trim, UNIT, UNIT_TENTHS};

const WIDTH: u32 = 12;
const HEIGHT: u32 = 6;

fn blank() -> Vec<u8> {
    vec![0; (WIDTH * HEIGHT * 4) as usize]
}

fn put(data: &mut Vec<u8>, x: u32, y: u32, color: [u8; 4]) {
    let first = ((y * WIDTH + x) * 4) as usize;
    data[first..first + 4].copy_from_slice(&color);
}

fn patch() -> Patch {
    Patch::new(2, 2, 4, 3, 2)
}

fn count(trim: &Trim, direction: Direction) -> usize {
    trim.texels.iter().filter(|texel| texel.direction == direction).count()
}

#[test]
fn trim_of_a_transparent_atlas_is_empty() {
    let atlas = Atlas::from_rgba(WIDTH, HEIGHT, blank()).unwrap();
    let trim = Trim::load(&atlas, "shell".to_string(), patch(), Vec3::new(0, 110, 0));
    assert!(trim.texels.is_empty());
    assert_eq!(trim.name, "shell");
    assert_eq!(trim.offset, Vec3::new(0, 110, 0));
    assert_eq!(trim.tint, Rgba::white());
    assert!(trim.pose.turns.is_empty());
}

#[test]
fn trim_has_one_texel_for_each_opaque_pixel() {
    let mut data = blank();
    let mut expected = [0usize; 6];
    for (i, direction) in Direction::all().iter().enumerate() {
        let region = patch().as_face(*direction);
        for px in 0..region.width {
            for py in 0..region.height {
                let alpha = match (px + 2 * py + i as u32) % 4 {
                    0 => 255,
                    1 => 254,
                    2 => 0,
                    _ => 128,
                };
                put(&mut data, region.x + px, region.y + py, [9, 9, 9, alpha]);
                if alpha == 255 {
                    expected[i] += 1;
                }
            }
        }
    }
    let atlas = Atlas::from_rgba(WIDTH, HEIGHT, data).unwrap();
    let trim = Trim::load(&atlas, "shell".to_string(), patch(), Vec3::zero());
    for (i, direction) in Direction::all().iter().enumerate() {
        assert!(expected[i] > 0);
        assert_eq!(count(&trim, *direction), expected[i]);
    }
    assert_eq!(trim.texels.len(), expected.iter().sum::<usize>());
}

#[test]
fn trim_leaves_out_a_nearly_opaque_pixel() {
    let mut data = blank();
    put(&mut data, 2, 2, [255, 0, 0, 254]);
    put(&mut data, 3, 2, [255, 0, 0, 255]);
    let atlas = Atlas::from_rgba(WIDTH, HEIGHT, data).unwrap();
    let trim = Trim::load(&atlas, "shell".to_string(), patch(), Vec3::zero());
    assert_eq!(trim.texels.len(), 1);
    assert_eq!(trim.texels[0].direction, Direction::Front);
    assert_eq!(trim.texels[0].color, Rgba::new(255, 0, 0, 255));
    assert_eq!(trim.texels[0].corners.bottom_left, Vec3::new(-2, 0, 2));
}

#[test]
fn trim_visits_faces_in_order_and_columns_first() {
    let mut data = blank();
    for direction in Direction::all() {
        let region = patch().as_face(direction);
        put(&mut data, region.x, region.y, [128, 128, 128, 255]);
        put(&mut data, region.x, region.y + 1, [128, 128, 128, 255]);
        put(&mut data, region.x + 1, region.y, [128, 128, 128, 255]);
    }
    let atlas = Atlas::from_rgba(WIDTH, HEIGHT, data).unwrap();
    let trim = Trim::load(&atlas, "shell".to_string(), patch(), Vec3::zero());
    assert_eq!(trim.texels.len(), 18);
    for (i, direction) in Direction::all().iter().enumerate() {
        let region = patch().as_face(*direction);
        for (k, (px, py)) in [(0, 0), (0, 1), (1, 0)].iter().enumerate() {
            let texel = trim.texels[3 * i + k];
            let position = Texel::position(&region, *direction, *px, *py);
            assert_eq!(texel, Texel::new(Rgba::new(128, 128, 128, 255), position, *direction));
            assert_eq!(texel.color, Rgba::new(55, 55, 55, 255));
        }
    }
}

#[test]
fn texel_positions_of_each_side() {
    let front = patch();
    let place = |direction: Direction, px: u32, py: u32| {
        Texel::position(&front.as_face(direction), direction, px, py)
    };
    assert_eq!(place(Direction::Front, 0, 0), Vec3::new(-4, 0, 2));
    assert_eq!(place(Direction::Front, 3, 2), Vec3::new(2, -4, 2));
    assert_eq!(place(Direction::Right, 0, 0), Vec3::new(4, 0, 0));
    assert_eq!(place(Direction::Right, 1, 2), Vec3::new(4, -4, -2));
    assert_eq!(place(Direction::Back, 0, 0), Vec3::new(2, 0, -2));
    assert_eq!(place(Direction::Back, 3, 1), Vec3::new(-4, -2, -2));
    assert_eq!(place(Direction::Left, 0, 0), Vec3::new(-4, 0, -2));
    assert_eq!(place(Direction::Left, 1, 2), Vec3::new(-4, -4, 0));
    assert_eq!(place(Direction::Top, 0, 0), Vec3::new(-4, 3, -2));
    assert_eq!(place(Direction::Top, 3, 1), Vec3::new(2, 3, 0));
    assert_eq!(place(Direction::Bottom, 0, 0), Vec3::new(-4, -3, 0));
    assert_eq!(place(Direction::Bottom, 3, 1), Vec3::new(2, -3, -2));
}

#[test]
fn texel_corners_of_each_side() {
    let p = Vec3::new(10, 20, 30);
    let at = |dx: i64, dy: i64, dz: i64| Vec3::new(10 + dx * UNIT, 20 + dy * UNIT, 30 + dz * UNIT);
    let corners = |direction: Direction| Texel::new(Rgba::white(), p, direction).corners;
    assert_eq!(
        corners(Direction::Front),
        Quad::new(at(0, 0, 0), at(1, 0, 0), at(1, 1, 0), at(0, 1, 0))
    );
    assert_eq!(
        corners(Direction::Right),
        Quad::new(at(0, 0, 1), at(0, 0, 0), at(0, 1, 0), at(0, 1, 1))
    );
    assert_eq!(
        corners(Direction::Back),
        Quad::new(at(1, 0, 0), at(0, 0, 0), at(0, 1, 0), at(1, 1, 0))
    );
    assert_eq!(
        corners(Direction::Left),
        Quad::new(at(0, 0, 0), at(0, 0, 1), at(0, 1, 1), at(0, 1, 0))
    );
    assert_eq!(
        corners(Direction::Top),
        Quad::new(at(0, 0, 1), at(1, 0, 1), at(1, 0, 0), at(0, 0, 0))
    );
    assert_eq!(
        corners(Direction::Bottom),
        Quad::new(at(0, 0, 0), at(1, 0, 0), at(1, 0, 1), at(0, 0, 1))
    );
}

#[test]
fn texel_unit_is_a_little_more_than_a_pixel() {
    assert_eq!(UNIT, 2);
    assert_eq!(UNIT_TENTHS, 11);
    let edge = UNIT_TENTHS as f32 / 10.0;
    assert_eq!(edge, 1.1);
    let texel = Texel::new(Rgba::new(200, 100, 50, 255), Vec3::new(-4, 0, 2), Direction::Front);
    assert_eq!(texel.color, Rgba::new(147, 32, 8, 255));
    let left = texel.corners.bottom_left.x as f32 * (edge / 2.0);
    assert_eq!(left, -2.0 * 1.1);
}

#[test]
fn trim_rotation_and_tint() {
    let atlas = Atlas::from_rgba(WIDTH, HEIGHT, blank()).unwrap();
    let mut trim = Trim::load(&atlas, "shell".to_string(), patch(), Vec3::new(60, 20, 0));
    trim.rotate_around(Vec3::new(-60, 40, 0), &[Turn::new(Axis::X, -30)]);
    trim.rotate_around(Vec3::new(0, 20, 0), &[Turn::new(Axis::X, 30)]);
    assert_eq!(trim.pose.pivot, Vec3::new(0, 20, 0));
    assert_eq!(trim.pose.turns, vec![Turn::new(Axis::X, 30)]);
    trim.apply_red(85);
    assert_eq!(trim.tint, Rgba::new(255, 85, 85, 255));
    trim.apply_color(Rgba::new(64, 64, 64, 255));
    assert_eq!(trim.tint, Rgba::new(64, 64, 64, 255));
    assert_eq!(trim.offset, Vec3::new(60, 20, 0));
    assert_eq!(trim.pose.turns.len(), 1);
}
