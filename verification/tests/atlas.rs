use craftwad::atlas::{Atlas, AtlasError};
use craftwad::color::Rgba;
use craftwad::patch::Patch;

fn ramp(width: u32, height: u32) -> Vec<u8> {
    let mut data = Vec::new();
    for y in 0..height {
        for x in 0..width {
            data.push(x as u8);
            data.push(y as u8);
            data.push((x + y) as u8);
            data.push(255 - x as u8);
        }
    }
    data
}

#[test]
fn atlas_reads_pixels_row_by_row() {
    let atlas = Atlas::from_rgba(5, 3, ramp(5, 3)).unwrap();
    assert_eq!(atlas.width(), 5);
    assert_eq!(atlas.height(), 3);
    assert_eq!(atlas.pixel(0, 0), Rgba::new(0, 0, 0, 255));
    assert_eq!(atlas.pixel(4, 2), Rgba::new(4, 2, 6, 251));
    assert_eq!(atlas.pixel(1, 2), Rgba::new(1, 2, 3, 254));
    assert_eq!(atlas.get_pixel(4, 2), Some(Rgba::new(4, 2, 6, 251)));
    assert_eq!(atlas.get_pixel(5, 2), None);
    assert_eq!(atlas.get_pixel(4, 3), None);
}

#[test]
fn atlas_needs_four_bytes_for_every_pixel() {
    let mut data = ramp(5, 3);
    data.pop();
    assert!(matches!(Atlas::from_rgba(5, 3, data), Err(AtlasError::TooFewBytes)));
    assert!(Atlas::from_rgba(0, 7, Vec::new()).is_ok());
    assert!(matches!(
        Atlas::from_rgba(u32::MAX, u32::MAX, vec![0; 16]),
        Err(AtlasError::TooFewBytes)
    ));
    let mut longer = ramp(2, 2);
    longer.push(9);
    let atlas = Atlas::from_rgba(2, 2, longer).unwrap();
    assert_eq!(atlas.pixel(1, 1), Rgba::new(1, 1, 2, 254));
}

#[test]
fn atlas_contains_regions() {
    let atlas = Atlas::from_rgba(64, 32, vec![0; 64 * 32 * 4]).unwrap();
    assert!(atlas.contains(&Patch::head()));
    assert!(atlas.contains_cuboid(&Patch::head()));
    assert!(atlas.contains_cuboid(&Patch::helmet()));
    assert!(atlas.contains_cuboid(&Patch::torso()));
    assert!(!atlas.contains(&Patch::left_leg()));
    assert!(!atlas.contains_cuboid(&Patch::left_sleeve()));
}

#[test]
fn atlas_decodes_a_png() {
    let mut picture = image::RgbaImage::new(3, 2);
    for (x, y, pixel) in picture.enumerate_pixels_mut() {
        pixel.0 = [10 * x as u8, 20 * y as u8, 7, 255 - x as u8];
    }
    let mut bytes = Vec::new();
    picture
        .write_to(&mut std::io::Cursor::new(&mut bytes), image::ImageFormat::Png)
        .unwrap();
    let atlas = Atlas::decode(&bytes).unwrap();
    assert_eq!(atlas.width(), 3);
    assert_eq!(atlas.height(), 2);
    assert_eq!(atlas.pixel(2, 1), Rgba::new(20, 20, 7, 253));
    assert_eq!(atlas.pixel(0, 0), Rgba::new(0, 0, 7, 255));
}

#[test]
fn atlas_rejects_what_is_no_image() {
    assert!(matches!(Atlas::decode(b"not an image"), Err(AtlasError::Undecodable)));
    assert!(matches!(Atlas::decode(&[]), Err(AtlasError::Undecodable)));
}
