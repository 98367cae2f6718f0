//! Names: of the sprites of a skin, of the frames that are captured and of
//! the places where they are kept.
//!
//! A skin is given a short prefix. Its standing sprites are named by the
//! prefix and `]`, its crouched sprites by the prefix and `[`, the sprites
//! of its fist by the prefix and a backslash, and its faces by the prefix
//! alone. A backslash cannot stand in a file name, so there a caret stands
//! for it.

use vstd::prelude::*;
use vstd::string::{StrSliceExecFns, StringExecFns};
use crate::render::{Capture, Mood, SpriteClass};

verus! {

/// `String::push` appends one character to the string.
pub assume_specification[ String::push ](text: &mut String, c: char)
    ensures
        final(text)@ == old(text)@.push(c),
;

/// The digit for a number below ten.
pub open spec fn digit(n: int) -> char {
    (48 + n) as char
}

/// The number written in decimal digits, without leading zeros.
pub open spec fn decimal(n: nat) -> Seq<char>
    decreases n,
{
    if n < 10 {
        seq![digit(n as int)]
    } else {
        decimal(n / 10).push(digit((n % 10) as int))
    }
}

/// The text with a caret in place of every backslash.
pub open spec fn with_carets(text: Seq<char>) -> Seq<char> {
    Seq::new(
        text.len(),
        |i: int|
            if text[i] == '\\' {
                '^'
            } else {
                text[i]
            },
    )
}

/// The text with a backslash in place of every caret.
pub open spec fn with_backslashes(text: Seq<char>) -> Seq<char> {
    Seq::new(
        text.len(),
        |i: int|
            if text[i] == '^' {
                '\\'
            } else {
                text[i]
            },
    )
}

/// Whether the character may stand in the name of a sprite: a letter of
/// the ASCII alphabet, a square bracket or a backslash.
pub open spec fn is_sprite_char(c: char) -> bool {
    ||| 'a' <= c <= 'z'
    ||| 'A' <= c <= 'Z'
    ||| c == '['
    ||| c == ']'
    ||| c == '\\'
}

/// Appends the decimal digits of `n`.
pub fn push_decimal(text: &mut String, n: u64)
    ensures
        final(text)@ == old(text)@ + decimal(n as nat),
    decreases n,
{
    if n < 10 {
        text.push((48 + n as u8) as char);
        assert(text@ =~= old(text)@ + decimal(n as nat));
    } else {
        push_decimal(text, n / 10);
        text.push((48 + (n % 10) as u8) as char);
        assert(text@ =~= old(text)@ + decimal(n as nat));
    }
}

/// A copy of `text` in which `to` stands in place of every `from`.
fn replaced(text: &str, from: char, to: char) -> (copy: String)
    ensures
        copy@ == Seq::new(
            text@.len(),
            |i: int|
                if text@[i] == from {
                    to
                } else {
                    text@[i]
                },
        ),
{
    let mut copy = String::new();
    let len = text.unicode_len();
    let mut i: usize = 0;
    while i < len
        invariant
            len == text@.len(),
            0 <= i <= len,
            copy@ == Seq::new(
                i as nat,
                |k: int|
                    if text@[k] == from {
                        to
                    } else {
                        text@[k]
                    },
            ),
        decreases len - i,
    {
        let c = text.get_char(i);
        copy.push(
            if c == from {
                to
            } else {
                c
            },
        );
        i += 1;
        assert(copy@ =~= Seq::new(
            i as nat,
            |k: int|
                if text@[k] == from {
                    to
                } else {
                    text@[k]
                },
        ));
    }
    copy
}

/// A copy of `text` with a caret in place of every backslash, as it can
/// stand in a file name.
pub fn to_file_name(text: &str) -> (copy: String)
    ensures
        copy@ == with_carets(text@),
{
    replaced(text, '\\', '^')
}

/// A copy of `text` with a backslash in place of every caret, as it stands
/// in an archive.
pub fn to_lump_name(text: &str) -> (copy: String)
    ensures
        copy@ == with_backslashes(text@),
{
    replaced(text, '^', '\\')
}

/// Whether every character of the text may stand in the name of a sprite.
pub fn validate_sprite(sprite: &str) -> (valid: bool)
    ensures
        valid == forall|i: int| 0 <= i < sprite@.len() ==> is_sprite_char(#[trigger] sprite@[i]),
{
    let len = sprite.unicode_len();
    let mut i: usize = 0;
    while i < len
        invariant
            len == sprite@.len(),
            0 <= i <= len,
            forall|k: int| 0 <= k < i ==> is_sprite_char(#[trigger] sprite@[k]),
        decreases len - i,
    {
        let c = sprite.get_char(i);
        let letter = ('a' <= c && c <= 'z') || ('A' <= c && c <= 'Z');
        if !letter && c != '[' && c != ']' && c != '\\' {
            return false;
        }
        i += 1;
    }
    true
}

/// The names of the sprites of a skin, made from its prefix.
pub trait SpritePrefix {
    /// The characters of the prefix.
    spec fn prefix(&self) -> Seq<char>;

    /// The name of the standing sprites: the prefix and `]`.
    fn to_skin_sprite(&self) -> (sprite: String)
        ensures
            sprite@ == self.prefix().push(']'),
    ;

    /// The name of the crouched sprites: the prefix and `[`.
    fn to_crouched_skin_sprite(&self) -> (sprite: String)
        ensures
            sprite@ == self.prefix().push('['),
    ;

    /// The name of the faces: the prefix.
    fn to_mugshot_sprite(&self) -> (sprite: String)
        ensures
            sprite@ == self.prefix(),
    ;

    /// The name of the sprites of the fist: the prefix and a backslash.
    fn to_fist_sprite(&self) -> (sprite: String)
        ensures
            sprite@ == self.prefix().push('\\'),
    ;

    /// The prefix between double quotes.
    fn quoted(&self) -> (text: String)
        ensures
            text@ == seq!['"'] + self.prefix() + seq!['"'],
    ;
}

impl SpritePrefix for str {
    open spec fn prefix(&self) -> Seq<char> {
        self@
    }

    fn to_skin_sprite(&self) -> (sprite: String) {
        let mut sprite = String::from_str(self);
        sprite.push(']');
        sprite
    }

    fn to_crouched_skin_sprite(&self) -> (sprite: String) {
        let mut sprite = String::from_str(self);
        sprite.push('[');
        sprite
    }

    fn to_mugshot_sprite(&self) -> (sprite: String) {
        String::from_str(self)
    }

    fn to_fist_sprite(&self) -> (sprite: String) {
        let mut sprite = String::from_str(self);
        sprite.push('\\');
        sprite
    }

    fn quoted(&self) -> (text: String) {
        let mut text = String::new();
        text.push('"');
        text.append(self);
        text.push('"');
        assert(text@ =~= seq!['"'] + self@ + seq!['"']);
        text
    }
}

impl Mood {
    /// The letters that name the mood in the names of its frames.
    pub open spec fn spec_suffix(self) -> Seq<char> {
        match self {
            Mood::Dead => seq!['D', 'E', 'A', 'D'],
            Mood::Evil => seq!['E', 'V', 'L'],
            Mood::God => seq!['G', 'O', 'D'],
            Mood::Kill => seq!['K', 'I', 'L', 'L'],
            Mood::Ouch => seq!['O', 'U', 'C', 'H'],
            Mood::Straight => seq!['S', 'T'],
            Mood::Left => seq!['T', 'L'],
            Mood::Right => seq!['T', 'R'],
        }
    }

    /// The letters that name the mood in the names of its frames.
    pub fn suffix(self) -> (suffix: &'static str)
        ensures
            suffix@ == self.spec_suffix(),
    {
        proof {
            reveal_strlit("DEAD");
            reveal_strlit("EVL");
            reveal_strlit("GOD");
            reveal_strlit("KILL");
            reveal_strlit("OUCH");
            reveal_strlit("ST");
            reveal_strlit("TL");
            reveal_strlit("TR");
        }
        let suffix = match self {
            Mood::Dead => "DEAD",
            Mood::Evil => "EVL",
            Mood::God => "GOD",
            Mood::Kill => "KILL",
            Mood::Ouch => "OUCH",
            Mood::Straight => "ST",
            Mood::Left => "TL",
            Mood::Right => "TR",
        };
        assert(suffix@ =~= self.spec_suffix());
        suffix
    }
}

impl Capture {
    /// The name of the image of the frame for the skin with the prefix
    /// `prefix`, without an extension. The name of the sprite comes first,
    /// then what tells the frame from the others: for the whole puppet its
    /// letter and the digit of its view, for a face the letters of its
    /// mood, the level of damage if there are levels, and the number of the
    /// frame, for the fist its letter and a zero.
    pub open spec fn spec_stem(self, prefix: Seq<char>) -> Seq<char> {
        match self {
            Capture::Body { crouched, letter, rotation } => prefix.push(
                if crouched {
                    '['
                } else {
                    ']'
                },
            ).push(letter) + decimal(rotation as nat),
            Capture::Face { mood, frame } => prefix + mood.spec_suffix() + decimal(frame as nat),
            Capture::HurtFace { mood, level, frame } => prefix + mood.spec_suffix() + decimal(
                level as nat,
            ) + decimal(frame as nat),
            Capture::Fist { letter } => with_carets(prefix.push('\\')).push(letter).push('0'),
        }
    }

    /// The name of the image of the frame, without an extension.
    pub fn stem(self, prefix: &str) -> (stem: String)
        ensures
            stem@ == self.spec_stem(prefix@),
    {
        match self {
            Capture::Body { crouched, letter, rotation } => {
                let mut stem = if crouched {
                    prefix.to_crouched_skin_sprite()
                } else {
                    prefix.to_skin_sprite()
                };
                stem.push(letter);
                push_decimal(&mut stem, rotation as u64);
                stem
            },
            Capture::Face { mood, frame } => {
                let mut stem = prefix.to_mugshot_sprite();
                stem.append(mood.suffix());
                push_decimal(&mut stem, frame as u64);
                stem
            },
            Capture::HurtFace { mood, level, frame } => {
                let mut stem = prefix.to_mugshot_sprite();
                stem.append(mood.suffix());
                push_decimal(&mut stem, level as u64);
                push_decimal(&mut stem, frame as u64);
                stem
            },
            Capture::Fist { letter } => {
                let sprite = prefix.to_fist_sprite();
                let mut stem = to_file_name(sprite.as_str());
                stem.push(letter);
                stem.push('0');
                stem
            },
        }
    }

    /// The name of the image file of the frame: the stem and `.png`.
    pub fn file_name(self, prefix: &str) -> (name: String)
        ensures
            name@ == self.spec_stem(prefix@) + seq!['.', 'p', 'n', 'g'],
    {
        let mut name = self.stem(prefix);
        proof {
            reveal_strlit(".png");
        }
        name.append(".png");
        assert(name@ =~= self.spec_stem(prefix@) + seq!['.', 'p', 'n', 'g']);
        name
    }
}

impl SpriteClass {
    /// The name of the directory of the class, before the number of the
    /// skin.
    pub open spec fn spec_subdir(self) -> Seq<char> {
        match self {
            SpriteClass::Sprites => "sprites"@,
            SpriteClass::CrouchSprites => "crouch-sprites"@,
            SpriteClass::Mugshot => "mugshot"@,
            SpriteClass::Fist => "fist"@,
        }
    }

    /// The name of the directory of the class, before the number of the
    /// skin.
    pub fn subdir(self) -> (name: &'static str)
        ensures
            name@ == self.spec_subdir(),
    {
        match self {
            SpriteClass::Sprites => "sprites",
            SpriteClass::CrouchSprites => "crouch-sprites",
            SpriteClass::Mugshot => "mugshot",
            SpriteClass::Fist => "fist",
        }
    }

    /// The name of the directory that holds the images of the class for
    /// the skin with the number `index`.
    pub fn directory(self, index: usize) -> (name: String)
        ensures
            name@ == self.spec_subdir() + decimal(index as nat),
    {
        let mut name = String::from_str(self.subdir());
        push_decimal(&mut name, index as u64);
        name
    }

    /// Where the anchor of a sprite of the class lies from its left edge,
    /// as an expression in the width `w` of the image as it was captured.
    pub open spec fn spec_anchor_x(self) -> Seq<char> {
        match self {
            SpriteClass::Sprites | SpriteClass::CrouchSprites => "w / 2"@,
            SpriteClass::Mugshot => "w / 2 - 18"@,
            SpriteClass::Fist => "-w / 2 - 15"@,
        }
    }

    /// Where the anchor of a sprite of the class lies from its top edge,
    /// as an expression in the height `h` of the image as it was captured.
    pub open spec fn spec_anchor_y(self) -> Seq<char> {
        match self {
            SpriteClass::Sprites | SpriteClass::CrouchSprites => "h - 15"@,
            SpriteClass::Mugshot => "h / 2 - 17"@,
            SpriteClass::Fist => "-h / 2 + 3"@,
        }
    }

    /// The two expressions for the anchor of a sprite of the class. The
    /// whole puppet stands on its anchor, centred, fifteen pixels above the
    /// lower edge. The anchors are looked up here and never computed from
    /// an image: they refer to the image as it was captured, so they are
    /// set before the image is cropped.
    pub fn anchor(self) -> (anchor: (&'static str, &'static str))
        ensures
            anchor.0@ == self.spec_anchor_x(),
            anchor.1@ == self.spec_anchor_y(),
    {
        match self {
            SpriteClass::Sprites | SpriteClass::CrouchSprites => ("w / 2", "h - 15"),
            SpriteClass::Mugshot => ("w / 2 - 18", "h / 2 - 17"),
            SpriteClass::Fist => ("-w / 2 - 15", "-h / 2 + 3"),
        }
    }
}

} // verus!
