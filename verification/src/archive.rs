//! The archive that takes the finished sprites: an ordered list of lumps,
//! each a short tag and a block of bytes.
//!
//! The archive itself is a `tinywad::wad::Wad`. What is known of it here is
//! what its source shows of the few calls that are made, stated over two
//! names: the lumps that it holds and the room that its counters leave.

use vstd::prelude::*;
use vstd::utf8::encode_utf8;
use tinywad::error::WadError;
use tinywad::lump::{LumpAdd, LumpAddKind};
use tinywad::models::operation::WadOp;
use tinywad::wad::{Wad, WadKind};
use crate::sprite::{to_lump_name, with_backslashes};

verus! {

#[verifier::external_type_specification]
#[verifier::external_body]
pub struct ExWad(Wad);

#[verifier::external_type_specification]
#[verifier::external_body]
pub struct ExWadError(WadError);

/// The lumps of the archive in their order, each with its tag of eight
/// bytes and its content.
pub uninterp spec fn wad_lumps(wad: Wad) -> Seq<(Seq<u8>, Seq<u8>)>;

/// The number of lumps that can still be added at the end of the archive
/// before its count of lumps or the greatest position among its lumps
/// leaves the range of a signed 32-bit number.
pub uninterp spec fn wad_room(wad: Wad) -> nat;

/// The number of lumps that an empty archive has room for. The first lump
/// gets the position two and every further lump the next one.
pub const EMPTY_ROOM: u32 = 0x7fff_fffe;

/// The tag of a lump with the given name: the first eight bytes of the
/// name in UTF-8, filled up with zero bytes.
pub open spec fn lump_tag(name: Seq<char>) -> Seq<u8> {
    let bytes = encode_utf8(name);
    Seq::new(
        8,
        |i: int|
            if i < bytes.len() {
                bytes[i]
            } else {
                0u8
            },
    )
}

/// `Wad::new` makes an archive without lumps, with a lump count of zero.
#[verifier::external_body]
fn wad_new() -> (wad: Wad)
    ensures
        wad_lumps(wad).len() == 0,
        wad_room(wad) == EMPTY_ROOM,
{
    Wad::new()
}

/// `Wad::set_kind` with `WadKind::Pwad` marks the archive as a patch
/// archive. It writes the kind into the header and touches nothing else.
#[verifier::external_body]
fn wad_set_patch_kind(wad: &mut Wad)
    ensures
        wad_lumps(*final(wad)) == wad_lumps(*old(wad)),
        wad_room(*final(wad)) == wad_room(*old(wad)),
{
    wad.set_kind(WadKind::Pwad)
}

/// `WadOp::add_lump_raw` with a `LumpAdd::new` of the kind
/// `LumpAddKind::Back`. `LumpAdd::new` copies the first eight bytes of the
/// name into a tag that starts out as zeros. `add_lump_raw` gives the new
/// lump a position one above the greatest there is, asks where a lump of
/// this kind goes, which for `Back` is the end and cannot fail, inserts a
/// copy of the buffer there under the tag and counts the lump. Its two
/// additions are the reason for the room that is asked for.
#[verifier::external_body]
fn wad_add_back(wad: &mut Wad, buffer: &Vec<u8>, name: &str) -> (added: Result<(), WadError>)
    requires
        wad_room(*old(wad)) > 0,
    ensures
        added is Ok,
        wad_lumps(*final(wad)) == wad_lumps(*old(wad)).push((lump_tag(name@), buffer@)),
        wad_room(*final(wad)) == wad_room(*old(wad)) - 1,
{
    wad.add_lump_raw(LumpAdd::new(LumpAddKind::Back, buffer, name))
}

/// Why a lump was not taken.
#[derive(Clone, Copy, PartialEq, Eq, Debug, Structural)]
pub enum ArchiveError {
    /// The archive turned the lump down.
    Rejected,
}

/// Something that lumps can be added to, at its end.
pub trait PushLump {
    /// The lumps in their order, each with its tag of eight bytes and its
    /// content.
    spec fn lumps(&self) -> Seq<(Seq<u8>, Seq<u8>)>;

    /// The number of lumps that can still be added.
    spec fn room(&self) -> nat;

    /// Adds a lump with the content `buffer` at the end. Of `name` the
    /// first eight bytes are kept. A lump is always taken while there is
    /// room, and nothing else changes.
    fn push_lump(&mut self, buffer: &Vec<u8>, name: &str) -> (pushed: Result<(), ArchiveError>)
        requires
            old(self).room() > 0,
        ensures
            pushed is Ok,
            final(self).lumps() == old(self).lumps().push((lump_tag(name@), buffer@)),
            final(self).room() == old(self).room() - 1,
    ;
}

impl PushLump for Wad {
    open spec fn lumps(&self) -> Seq<(Seq<u8>, Seq<u8>)> {
        wad_lumps(*self)
    }

    open spec fn room(&self) -> nat {
        wad_room(*self)
    }

    fn push_lump(&mut self, buffer: &Vec<u8>, name: &str) -> (pushed: Result<(), ArchiveError>) {
        match wad_add_back(self, buffer, name) {
            Ok(()) => Ok(()),
            Err(_) => Err(ArchiveError::Rejected),
        }
    }
}

/// An image that is ready for the archive: the name of its file without
/// the extension, and the bytes of the file.
pub struct Image {
    pub stem: String,
    pub bytes: Vec<u8>,
}

/// The lump that an image becomes. The name of a file has a caret where
/// the name of the lump has a backslash.
pub open spec fn image_lump(image: Image) -> (Seq<u8>, Seq<u8>) {
    (lump_tag(with_backslashes(image.stem@)), image.bytes@)
}

/// The lumps that the first `count` of the images become.
pub open spec fn image_lumps(images: Seq<Image>, count: int) -> Seq<(Seq<u8>, Seq<u8>)>
    decreases count,
{
    if count <= 0 {
        Seq::empty()
    } else {
        image_lumps(images, count - 1).push(image_lump(images[count - 1]))
    }
}

/// An empty patch archive.
pub fn new_archive() -> (wad: Wad)
    ensures
        wad.lumps().len() == 0,
        wad.room() == EMPTY_ROOM,
{
    let mut wad = wad_new();
    wad_set_patch_kind(&mut wad);
    wad
}

/// Adds a lump under the name of a file: every caret of `name` becomes a
/// backslash, then the lump is added at the end.
pub fn push_file_lump(wad: &mut Wad, buffer: &Vec<u8>, name: &str) -> (pushed: Result<
    (),
    ArchiveError,
>)
    requires
        old(wad).room() > 0,
    ensures
        pushed is Ok,
        final(wad).lumps() == old(wad).lumps().push(
            (lump_tag(with_backslashes(name@)), buffer@),
        ),
        final(wad).room() == old(wad).room() - 1,
{
    let name = to_lump_name(name);
    wad.push_lump(buffer, name.as_str())
}

/// Adds the images to the archive, in their order, each as one lump.
pub fn push_images(wad: &mut Wad, images: &Vec<Image>) -> (pushed: Result<(), ArchiveError>)
    requires
        old(wad).room() >= images@.len(),
    ensures
        pushed is Ok,
        final(wad).lumps() == old(wad).lumps() + image_lumps(images@, images@.len() as int),
        final(wad).room() == old(wad).room() - images@.len(),
{
    let mut i: usize = 0;
    assert(wad.lumps() =~= old(wad).lumps() + image_lumps(images@, 0));
    while i < images.len()
        invariant
            0 <= i <= images@.len(),
            wad.lumps() == old(wad).lumps() + image_lumps(images@, i as int),
            wad.room() == old(wad).room() - i,
            old(wad).room() >= images@.len(),
        decreases images@.len() - i,
    {
        let image = &images[i];
        match push_file_lump(wad, &image.bytes, image.stem.as_str()) {
            Ok(()) => {},
            Err(error) => {
                return Err(error);
            },
        }
        assert(wad.lumps() =~= old(wad).lumps() + image_lumps(images@, i + 1));
        i += 1;
    }
    Ok(())
}

/// A new patch archive that holds the images, in their order, each as one
/// lump. There is one unless the images are more than an archive has room
/// for.
pub fn archive_of(images: &Vec<Image>) -> (packed: Option<Wad>)
    ensures
        packed is Some <==> images@.len() <= EMPTY_ROOM,
        packed matches Some(wad) ==> wad.lumps() == image_lumps(images@, images@.len() as int)
            && wad.room() == EMPTY_ROOM - images@.len(),
{
    if images.len() > EMPTY_ROOM as usize {
        return None;
    }
    let mut wad = new_archive();
    match push_images(&mut wad, images) {
        Ok(()) => {
            assert(wad.lumps() =~= image_lumps(images@, images@.len() as int));
            Some(wad)
        },
        Err(_) => None,
    }
}

} // verus!
