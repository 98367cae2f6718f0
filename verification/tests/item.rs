use craftwad::converting::{Format, Produce, Render, SkinData};
use craftwad::item::{
    check_name, check_path, check_sprite, ends_with, FieldError, ItemField, SkinItem,
    MUGSHOT_LENGTH, SPRITE_LENGTH,
};
use craftwad::render::{render_fist, render_mugshot, render_skin_with_crouch};

#[test]
fn item_fields_in_order() {
    let item = SkinItem {
        name: "Steve".to_string(),
        path: "steve.png".to_string(),
        sprite: "STEV".to_string(),
        mugshot: "STV".to_string(),
    };
    assert_eq!(item.ref_array(), [&item.name, &item.path, &item.sprite, &item.mugshot]);
    let mut field = ItemField::Name;
    let order = [ItemField::Path, ItemField::Sprite, ItemField::Mugshot, ItemField::Name];
    for expected in order {
        assert_eq!(field.next().previous(), field);
        field = field.next();
        assert_eq!(field, expected);
    }
    assert_eq!(ItemField::Name.previous(), ItemField::Mugshot);
}

#[test]
fn name_must_not_be_empty() {
    assert_eq!(check_name(""), Err(FieldError::Empty));
    assert_eq!(check_name("x"), Ok(()));
}

#[test]
fn path_must_end_in_its_extension_and_exist() {
    assert_eq!(check_path("skin.png", ".png", true), Ok(()));
    assert_eq!(check_path("skin.png", ".png", false), Err(FieldError::Missing));
    assert_eq!(check_path("skin.jpg", ".png", true), Err(FieldError::WrongExtension));
    assert_eq!(check_path("skin.jpg", ".png", false), Err(FieldError::WrongExtension));
    assert_eq!(check_path("png", ".png", true), Err(FieldError::WrongExtension));
    assert_eq!(check_path(".png", ".png", true), Ok(()));
    assert_eq!(check_path("list.csv", ".csv", true), Ok(()));
    assert!(ends_with("out.wad", ".wad"));
    assert!(ends_with("anything", ""));
    assert!(!ends_with("out.wad2", ".wad"));
    assert!(!ends_with("ad", ".wad"));
}

#[test]
fn sprite_must_have_its_length_and_letters() {
    assert_eq!(check_sprite("PLAY", SPRITE_LENGTH), Ok(()));
    assert_eq!(check_sprite("PLA", SPRITE_LENGTH), Err(FieldError::WrongLength));
    assert_eq!(check_sprite("PLAYS", SPRITE_LENGTH), Err(FieldError::WrongLength));
    assert_eq!(check_sprite("PLA1", SPRITE_LENGTH), Err(FieldError::BadCharacter));
    assert_eq!(check_sprite("PÄY", SPRITE_LENGTH), Err(FieldError::BadCharacter));
    assert_eq!(check_sprite("PL1", SPRITE_LENGTH), Err(FieldError::WrongLength));
    assert_eq!(check_sprite("STV", MUGSHOT_LENGTH), Ok(()));
    assert_eq!(check_sprite("ST[", MUGSHOT_LENGTH), Ok(()));
    assert_eq!(check_sprite("ST", MUGSHOT_LENGTH), Err(FieldError::WrongLength));
    assert_eq!(check_sprite("S-V", MUGSHOT_LENGTH), Err(FieldError::BadCharacter));
}

#[test]
fn formats_and_their_passes() {
    let both = vec![Render::SkinWithCrouch, Render::Mugshot];
    let all = vec![Render::SkinWithCrouch, Render::Mugshot, Render::Fist];
    assert_eq!(Format::S_SkinWad.methods(), (both, Produce::SSkinWad));
    assert_eq!(Format::S_SkinAndFistWads.methods(), (all.clone(), Produce::SSkinAndFistWads));
    assert_eq!(Format::DecorateWad.methods(), (all, Produce::DecorateWad));
    assert_eq!(Render::SkinWithCrouch.script(), render_skin_with_crouch());
    assert_eq!(Render::Mugshot.script(), render_mugshot());
    assert_eq!(Render::Fist.script(), render_fist());
}

#[test]
fn skin_data_fields_and_names() {
    let data = SkinData {
        name: "Steve".to_string(),
        path: "steve.png".to_string(),
        sprite_prefix: "S\\V".to_string(),
    };
    assert_eq!(data.as_refs(), ["Steve", "steve.png", "S\\V"]);
    assert_eq!(data.packed_names(), ("Steve".to_string(), "S^V".to_string()));
}
