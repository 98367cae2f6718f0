use craftwad::color::Rgba;
use craftwad::gamma::{correct_gamma, LINEAR_LEVELS};

fn curve(channel: u8) -> u8 {
    let channel = channel as f32 / 255.0;
    let corrected = if channel <= 0.04045 {
        channel / 12.92
    } else {
        ((channel + 0.055) / 1.055).powf(2.4)
    };
    (corrected * 255.0) as u8
}

#[test]
fn gamma_keeps_black_and_white() {
    assert_eq!(correct_gamma(0), 0);
    assert_eq!(correct_gamma(255), 255);
}

#[test]
fn gamma_darkens_mid_grey() {
    assert_eq!(correct_gamma(128), 55);
    assert!(correct_gamma(128) < 128);
}

#[test]
fn gamma_follows_the_curve_for_every_channel() {
    for channel in 0..=255u8 {
        assert_eq!(correct_gamma(channel), curve(channel), "channel {}", channel);
        assert_eq!(correct_gamma(channel), LINEAR_LEVELS[channel as usize]);
    }
}

#[test]
fn gamma_toe_is_black() {
    for channel in 0..=12u8 {
        assert_eq!(correct_gamma(channel), 0);
    }
    assert_eq!(correct_gamma(13), 1);
}

#[test]
fn gamma_never_brightens_and_keeps_order() {
    let mut last = 0;
    for channel in 0..=255u8 {
        let linear = correct_gamma(channel);
        assert!(linear <= channel);
        assert!(linear >= last);
        if channel != 0 && channel != 255 {
            assert!(linear < channel);
        }
        last = linear;
    }
}

#[test]
fn color_to_linear_keeps_opacity() {
    let color = Rgba::new(255, 128, 0, 77).to_linear();
    assert_eq!(color, Rgba::new(255, 55, 0, 77));
}

#[test]
fn color_opaque_only_at_full_alpha() {
    assert!(Rgba::new(1, 2, 3, 255).is_opaque());
    assert!(!Rgba::new(1, 2, 3, 254).is_opaque());
    assert!(!Rgba::new(1, 2, 3, 0).is_opaque());
}

#[test]
fn color_red_and_white() {
    assert_eq!(Rgba::red(70), Rgba::new(255, 70, 70, 255));
    assert_eq!(Rgba::white(), Rgba::new(255, 255, 255, 255));
}
