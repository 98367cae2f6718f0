//! The entries of the list of skins as they are typed in, and the rules
//! that each field of an entry has to meet.

use vstd::prelude::*;
use vstd::string::{StrSliceExecFns, StringSliceAdditionalSpecFns};
use crate::sprite::{is_sprite_char, validate_sprite};

verus! {

/// A skin as it is typed in: what it is called, where its atlas lies, the
/// name of its sprites and the name of its faces.
pub struct SkinItem {
    pub name: String,
    pub path: String,
    pub sprite: String,
    pub mugshot: String,
}

impl SkinItem {
    /// The four fields in their order.
    pub fn ref_array(&self) -> (fields: [&String; 4])
        ensures
            fields[0]@ == self.name@,
            fields[1]@ == self.path@,
            fields[2]@ == self.sprite@,
            fields[3]@ == self.mugshot@,
    {
        [&self.name, &self.path, &self.sprite, &self.mugshot]
    }
}

/// The fields of an entry.
#[derive(Clone, Copy, PartialEq, Eq, Debug, Structural)]
pub enum ItemField {
    Name,
    Path,
    Sprite,
    Mugshot,
}

impl ItemField {
    pub open spec fn spec_next(self) -> ItemField {
        match self {
            ItemField::Name => ItemField::Path,
            ItemField::Path => ItemField::Sprite,
            ItemField::Sprite => ItemField::Mugshot,
            ItemField::Mugshot => ItemField::Name,
        }
    }

    pub open spec fn spec_previous(self) -> ItemField {
        match self {
            ItemField::Name => ItemField::Mugshot,
            ItemField::Path => ItemField::Name,
            ItemField::Sprite => ItemField::Path,
            ItemField::Mugshot => ItemField::Sprite,
        }
    }

    /// The field after this one; after the last comes the first.
    #[verifier::when_used_as_spec(spec_next)]
    pub fn next(self) -> (field: ItemField)
        ensures
            field == self.spec_next(),
            field.spec_previous() == self,
    {
        match self {
            ItemField::Name => ItemField::Path,
            ItemField::Path => ItemField::Sprite,
            ItemField::Sprite => ItemField::Mugshot,
            ItemField::Mugshot => ItemField::Name,
        }
    }

    /// The field before this one; before the first comes the last.
    #[verifier::when_used_as_spec(spec_previous)]
    pub fn previous(self) -> (field: ItemField)
        ensures
            field == self.spec_previous(),
            field.spec_next() == self,
    {
        match self {
            ItemField::Name => ItemField::Mugshot,
            ItemField::Path => ItemField::Name,
            ItemField::Sprite => ItemField::Path,
            ItemField::Mugshot => ItemField::Sprite,
        }
    }
}

/// What is wrong with a field.
#[derive(Clone, Copy, PartialEq, Eq, Debug, Structural)]
pub enum FieldError {
    /// The name is empty.
    Empty,
    /// The path does not end in the extension that is asked for.
    WrongExtension,
    /// There is no file at the path.
    Missing,
    /// The text does not have the length that is asked for.
    WrongLength,
    /// The text has a character that cannot stand in the name of a sprite.
    BadCharacter,
}

/// The length of the name of the sprites, in bytes.
pub const SPRITE_LENGTH: usize = 4;

/// The length of the name of the faces, in bytes.
pub const MUGSHOT_LENGTH: usize = 3;

/// Whether `text` ends with `suffix`.
pub open spec fn has_suffix(text: Seq<char>, suffix: Seq<char>) -> bool {
    suffix.len() <= text.len() && text.subrange(text.len() - suffix.len(), text.len() as int)
        == suffix
}

/// Whether every character of the text may stand in the name of a sprite.
pub open spec fn all_sprite_chars(text: Seq<char>) -> bool {
    forall|i: int| 0 <= i < text.len() ==> is_sprite_char(#[trigger] text[i])
}

/// Whether `text` ends with `suffix`.
pub fn ends_with(text: &str, suffix: &str) -> (found: bool)
    ensures
        found == has_suffix(text@, suffix@),
{
    let len = text.unicode_len();
    let tail = suffix.unicode_len();
    if tail > len {
        return false;
    }
    let start = len - tail;
    let mut i: usize = 0;
    while i < tail
        invariant
            len == text@.len(),
            tail == suffix@.len(),
            start == len - tail,
            0 <= i <= tail <= len,
            forall|k: int| 0 <= k < i ==> text@[start + k] == suffix@[k],
        decreases tail - i,
    {
        if text.get_char(start + i) != suffix.get_char(i) {
            assert(text@.subrange(start as int, len as int)[i as int] != suffix@[i as int]);
            return false;
        }
        i += 1;
    }
    assert(text@.subrange(start as int, len as int) =~= suffix@);
    true
}

/// Checks the name of a skin: it must not be empty.
pub fn check_name(name: &str) -> (checked: Result<(), FieldError>)
    ensures
        checked == if name@.len() == 0 {
            Err::<(), FieldError>(FieldError::Empty)
        } else {
            Ok(())
        },
{
    if name.unicode_len() == 0 {
        Err(FieldError::Empty)
    } else {
        Ok(())
    }
}

/// Checks a path that ends in `extension`, given whether there is a file
/// at it. The extension is looked at first.
pub fn check_path(path: &str, extension: &str, present: bool) -> (checked: Result<(), FieldError>)
    ensures
        checked == if !has_suffix(path@, extension@) {
            Err::<(), FieldError>(FieldError::WrongExtension)
        } else if !present {
            Err(FieldError::Missing)
        } else {
            Ok(())
        },
{
    if !ends_with(path, extension) {
        Err(FieldError::WrongExtension)
    } else if !present {
        Err(FieldError::Missing)
    } else {
        Ok(())
    }
}

/// Checks a name of sprites that is to be `length` bytes long. The length
/// is looked at first.
pub fn check_sprite(sprite: &str, length: usize) -> (checked: Result<(), FieldError>)
    ensures
        checked == if sprite.spec_bytes().len() as usize != length {
            Err::<(), FieldError>(FieldError::WrongLength)
        } else if !all_sprite_chars(sprite@) {
            Err(FieldError::BadCharacter)
        } else {
            Ok(())
        },
{
    if sprite.len() != length {
        Err(FieldError::WrongLength)
    } else if !validate_sprite(sprite) {
        Err(FieldError::BadCharacter)
    } else {
        Ok(())
    }
}

} // verus!
