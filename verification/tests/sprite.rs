use craftwad::render::{render_skin, Capture, Mood, SpriteClass, Step};
use craftwad::sprite::{
    push_decimal, to_file_name, to_lump_name, validate_sprite, SpritePrefix,
};

#[test]
fn sprite_names_from_a_prefix() {
    assert_eq!("PLA".to_skin_sprite(), "PLA]");
    assert_eq!("PLA".to_crouched_skin_sprite(), "PLA[");
    assert_eq!("PLA".to_mugshot_sprite(), "PLA");
    assert_eq!("PLA".to_fist_sprite(), "PLA\\");
    assert_eq!("PLA".quoted(), "\"PLA\"");
    assert_eq!("".quoted(), "\"\"");
}

#[test]
fn frame_names_of_the_puppet() {
    let frame = Capture::Body { crouched: false, letter: 'A', rotation: 1 };
    assert_eq!(frame.stem("PLA"), "PLA]A1");
    assert_eq!(frame.file_name("PLA"), "PLA]A1.png");
    let frame = Capture::Body { crouched: true, letter: 'G', rotation: 8 };
    assert_eq!(frame.stem("PLA"), "PLA[G8");
    let frame = Capture::Body { crouched: false, letter: 'W', rotation: 0 };
    assert_eq!(frame.stem("PLA"), "PLA]W0");
}

#[test]
fn frame_names_of_the_head() {
    assert_eq!(Capture::Face { mood: Mood::Dead, frame: 0 }.stem("PLA"), "PLADEAD0");
    assert_eq!(Capture::Face { mood: Mood::Evil, frame: 4 }.stem("PLA"), "PLAEVL4");
    assert_eq!(Capture::Face { mood: Mood::God, frame: 0 }.stem("PLA"), "PLAGOD0");
    assert_eq!(Capture::Face { mood: Mood::Kill, frame: 2 }.stem("PLA"), "PLAKILL2");
    assert_eq!(Capture::Face { mood: Mood::Ouch, frame: 1 }.stem("PLA"), "PLAOUCH1");
    let frame = Capture::HurtFace { mood: Mood::Straight, level: 3, frame: 2 };
    assert_eq!(frame.stem("PLA"), "PLAST32");
    assert_eq!(frame.file_name("PLA"), "PLAST32.png");
    let frame = Capture::HurtFace { mood: Mood::Left, level: 4, frame: 0 };
    assert_eq!(frame.stem("PLA"), "PLATL40");
    let frame = Capture::HurtFace { mood: Mood::Right, level: 0, frame: 0 };
    assert_eq!(frame.stem("PLA"), "PLATR00");
}

#[test]
fn frame_names_of_the_fist() {
    assert_eq!(Capture::Fist { letter: 'A' }.stem("PLA"), "PLA^A0");
    assert_eq!(Capture::Fist { letter: 'I' }.file_name("P\\A"), "P^A^I0.png");
}

#[test]
fn frame_names_are_all_different() {
    let mut names: Vec<String> = render_skin()
        .iter()
        .filter_map(|step| match step {
            Step::Capture(capture) => Some(capture.stem("PLA")),
            _ => None,
        })
        .collect();
    assert_eq!(names.len(), 72);
    assert!(names.iter().all(|name| name.len() == 6));
    names.sort();
    names.dedup();
    assert_eq!(names.len(), 72);
}

#[test]
fn mood_suffixes() {
    let moods = [
        (Mood::Dead, "DEAD"),
        (Mood::Evil, "EVL"),
        (Mood::God, "GOD"),
        (Mood::Kill, "KILL"),
        (Mood::Ouch, "OUCH"),
        (Mood::Straight, "ST"),
        (Mood::Left, "TL"),
        (Mood::Right, "TR"),
    ];
    for (mood, suffix) in moods {
        assert_eq!(mood.suffix(), suffix);
    }
}

#[test]
fn decimal_digits() {
    for (number, digits) in [(0, "0"), (7, "7"), (10, "10"), (255, "255"), (1234567890, "1234567890")] {
        let mut text = String::from("n");
        push_decimal(&mut text, number);
        assert_eq!(text, format!("n{}", digits));
    }
    let mut text = String::new();
    push_decimal(&mut text, u64::MAX);
    assert_eq!(text, "18446744073709551615");
}

#[test]
fn carets_stand_for_backslashes() {
    assert_eq!(to_file_name("A\\B\\"), "A^B^");
    assert_eq!(to_file_name("plain"), "plain");
    assert_eq!(to_lump_name("A^B^"), "A\\B\\");
    assert_eq!(to_lump_name(&to_file_name("PLA\\A0")), "PLA\\A0");
    assert_eq!(to_file_name(""), "");
}

#[test]
fn sprite_characters() {
    assert!(validate_sprite("PLAY"));
    assert!(validate_sprite("pl[]"));
    assert!(validate_sprite("A\\b]"));
    assert!(validate_sprite(""));
    assert!(!validate_sprite("PLA1"));
    assert!(!validate_sprite("PL Y"));
    assert!(!validate_sprite("PLA^"));
    assert!(!validate_sprite("PLÄY"));
    assert!(!validate_sprite("@"));
    assert!(!validate_sprite("`"));
    assert!(!validate_sprite("{"));
}

#[test]
fn directories_and_anchors_by_class() {
    assert_eq!(SpriteClass::Sprites.subdir(), "sprites");
    assert_eq!(SpriteClass::CrouchSprites.subdir(), "crouch-sprites");
    assert_eq!(SpriteClass::Mugshot.subdir(), "mugshot");
    assert_eq!(SpriteClass::Fist.subdir(), "fist");
    assert_eq!(SpriteClass::Sprites.directory(0), "sprites0");
    assert_eq!(SpriteClass::CrouchSprites.directory(12), "crouch-sprites12");
    assert_eq!(SpriteClass::Mugshot.directory(3), "mugshot3");
    assert_eq!(SpriteClass::Fist.directory(100), "fist100");
    assert_eq!(SpriteClass::Sprites.anchor(), ("w / 2", "h - 15"));
    assert_eq!(SpriteClass::CrouchSprites.anchor(), ("w / 2", "h - 15"));
    assert_eq!(SpriteClass::Mugshot.anchor(), ("w / 2 - 18", "h / 2 - 17"));
    assert_eq!(SpriteClass::Fist.anchor(), ("-w / 2 - 15", "-h / 2 + 3"));
}
