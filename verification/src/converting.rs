//! What is made of a list of skins: which sprites are captured for each
//! kind of archive, and under which names a skin goes into it.

use vstd::prelude::*;
use crate::render::{
    crouch_script, fist_script, mugshot_script, render_fist, render_mugshot,
    render_skin_with_crouch, skin_script, Step,
};
use crate::sprite::{to_file_name, with_carets};

verus! {

/// One pass over a skin that captures the sprites of one kind.
#[derive(Clone, Copy, PartialEq, Eq, Debug, Structural)]
pub enum Render {
    /// The standing and the crouched puppet.
    SkinWithCrouch,
    /// The head.
    Mugshot,
    /// The fist.
    Fist,
}

/// The way in which the captured sprites are packed.
#[derive(Clone, Copy, PartialEq, Eq, Debug, Structural)]
pub enum Produce {
    /// One archive of skins.
    SSkinWad,
    /// One archive of skins and one of fists.
    SSkinAndFistWads,
    /// One archive of player classes with their fists.
    DecorateWad,
}

/// The kinds of archives that can be made of a list of skins.
#[allow(non_camel_case_types)]
#[derive(Clone, Copy, PartialEq, Eq, Debug, Structural)]
pub enum Format {
    S_SkinWad,
    S_SkinAndFistWads,
    DecorateWad,
}

impl Render {
    /// The script of the pass.
    pub open spec fn spec_script(self) -> Seq<Step> {
        match self {
            Render::SkinWithCrouch => skin_script() + crouch_script(),
            Render::Mugshot => mugshot_script(),
            Render::Fist => fist_script(),
        }
    }

    /// The script of the pass.
    pub fn script(self) -> (steps: Vec<Step>)
        ensures
            steps@ == self.spec_script(),
    {
        match self {
            Render::SkinWithCrouch => render_skin_with_crouch(),
            Render::Mugshot => render_mugshot(),
            Render::Fist => render_fist(),
        }
    }
}

impl Format {
    /// The passes that the format needs, in their order. Every format has
    /// the whole puppet and the head; the fist is left out where no fists
    /// are packed.
    pub open spec fn renders(self) -> Seq<Render> {
        match self {
            Format::S_SkinWad => seq![Render::SkinWithCrouch, Render::Mugshot],
            Format::S_SkinAndFistWads | Format::DecorateWad => seq![
                Render::SkinWithCrouch,
                Render::Mugshot,
                Render::Fist,
            ],
        }
    }

    /// The way in which the format is packed.
    pub open spec fn produce(self) -> Produce {
        match self {
            Format::S_SkinWad => Produce::SSkinWad,
            Format::S_SkinAndFistWads => Produce::SSkinAndFistWads,
            Format::DecorateWad => Produce::DecorateWad,
        }
    }

    /// The passes that the format needs and the way in which it is packed.
    pub fn methods(&self) -> (methods: (Vec<Render>, Produce))
        ensures
            methods.0@ == self.renders(),
            methods.1 == self.produce(),
    {
        match self {
            Format::S_SkinWad => {
                let renders = vec![Render::SkinWithCrouch, Render::Mugshot];
                assert(renders@ =~= self.renders());
                (renders, Produce::SSkinWad)
            },
            Format::S_SkinAndFistWads => {
                let renders = vec![Render::SkinWithCrouch, Render::Mugshot, Render::Fist];
                assert(renders@ =~= self.renders());
                (renders, Produce::SSkinAndFistWads)
            },
            Format::DecorateWad => {
                let renders = vec![Render::SkinWithCrouch, Render::Mugshot, Render::Fist];
                assert(renders@ =~= self.renders());
                (renders, Produce::DecorateWad)
            },
        }
    }
}

/// A skin as it is listed: what it is called, where its atlas lies and the
/// prefix of the names of its sprites.
pub struct SkinData {
    pub name: String,
    pub path: String,
    pub sprite_prefix: String,
}

impl SkinData {
    /// The three fields in their order.
    pub fn as_refs(&self) -> (fields: [&str; 3])
        ensures
            fields[0]@ == self.name@,
            fields[1]@ == self.path@,
            fields[2]@ == self.sprite_prefix@,
    {
        [self.name.as_str(), self.path.as_str(), self.sprite_prefix.as_str()]
    }

    /// The name and the prefix under which the skin is packed: the prefix
    /// as it stands in the names of the files, with a caret for every
    /// backslash.
    pub fn packed_names(&self) -> (names: (String, String))
        ensures
            names.0@ == self.name@,
            names.1@ == with_carets(self.sprite_prefix@),
    {
        (self.name.clone(), to_file_name(self.sprite_prefix.as_str()))
    }
}

} // verus!
