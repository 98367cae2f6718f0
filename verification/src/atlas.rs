//! The skin atlas: one image that holds the texture of every body part.

use vstd::prelude::*;
use crate::color::Rgba;
use crate::patch::Patch;

verus! {

/// Why bytes could not be taken as an atlas.
#[derive(Clone, Copy, PartialEq, Eq, Debug, Structural)]
pub enum AtlasError {
    /// The bytes are not an image that can be decoded.
    Undecodable,
    /// There are fewer bytes than the pixels of the image need.
    TooFewBytes,
}

/// An image of `width` by `height` pixels. Each pixel has four bytes, red,
/// green, blue and opacity, and the rows follow each other from the top.
pub struct Atlas {
    width: u32,
    height: u32,
    data: Vec<u8>,
}

/// The image that `image::load_from_memory` decodes from `bytes`, converted
/// to 8-bit RGBA: its width, its height and its raw buffer. `None` where the
/// bytes cannot be decoded.
pub uninterp spec fn decoded_image(bytes: Seq<u8>) -> Option<(u32, u32, Seq<u8>)>;

/// Decodes an encoded image with `image::load_from_memory`, converts it with
/// `DynamicImage::to_rgba8` and takes the converted buffer apart with
/// `width`, `height` and `into_raw`. The contract only names the outcome
/// [`decoded_image`]: nothing is claimed of what the image holds.
#[verifier::external_body]
fn decode_rgba(bytes: &[u8]) -> (image: Option<(u32, u32, Vec<u8>)>)
    ensures
        image matches Some(parts) ==> decoded_image(bytes@) == Some(
            (parts.0, parts.1, parts.2@),
        ),
        image is None ==> decoded_image(bytes@) is None,
{
    match image::load_from_memory(bytes) {
        Ok(decoded) => {
            let rgba = decoded.to_rgba8();
            Some((rgba.width(), rgba.height(), rgba.into_raw()))
        },
        Err(_) => None,
    }
}

impl Atlas {
    #[verifier::type_invariant]
    spec fn well_formed(self) -> bool {
        self.wf()
    }

    /// Every pixel of the image has its four bytes.
    pub closed spec fn wf(&self) -> bool {
        4 * (self.width * self.height) <= self.data@.len()
    }

    pub closed spec fn spec_width(&self) -> u32 {
        self.width
    }

    pub closed spec fn spec_height(&self) -> u32 {
        self.height
    }

    /// The bytes of the image, four to a pixel, row after row.
    pub closed spec fn bytes(&self) -> Seq<u8> {
        self.data@
    }

    /// The place of the first byte of the pixel (`x`, `y`).
    pub open spec fn offset_of(&self, x: int, y: int) -> int {
        4 * (y * self.spec_width() + x)
    }

    /// The pixel in column `x` of row `y`.
    pub open spec fn at(&self, x: int, y: int) -> Rgba {
        let first = self.offset_of(x, y);
        Rgba {
            r: self.bytes()[first],
            g: self.bytes()[first + 1],
            b: self.bytes()[first + 2],
            a: self.bytes()[first + 3],
        }
    }

    /// Whether the image has a pixel (`x`, `y`).
    pub open spec fn has(&self, x: int, y: int) -> bool {
        0 <= x < self.spec_width() && 0 <= y < self.spec_height()
    }

    /// Whether the rectangle lies within the image.
    pub open spec fn holds(&self, region: Patch) -> bool {
        region.within(self.spec_width(), self.spec_height())
    }

    /// Whether all six faces around the front face lie within the image.
    pub open spec fn holds_cuboid(&self, front: Patch) -> bool {
        front.unfolds_within(self.spec_width(), self.spec_height())
    }

    /// Whether `width * height * 4` bytes are among `len` bytes.
    pub open spec fn enough_bytes(width: u32, height: u32, len: nat) -> bool {
        4 * (width * height) <= len
    }

    /// The number of columns.
    #[verifier::when_used_as_spec(spec_width)]
    pub fn width(&self) -> (width: u32)
        ensures
            width == self.spec_width(),
    {
        self.width
    }

    /// The number of rows.
    #[verifier::when_used_as_spec(spec_height)]
    pub fn height(&self) -> (height: u32)
        ensures
            height == self.spec_height(),
    {
        self.height
    }

    /// The pixels of a well-formed image lie within its bytes.
    pub proof fn lemma_pixel_in_bytes(&self, x: int, y: int)
        requires
            self.wf(),
            self.has(x, y),
        ensures
            0 <= self.offset_of(x, y),
            self.offset_of(x, y) + 3 < self.bytes().len(),
    {
        let w = self.width as int;
        let h = self.height as int;
        assert(0 <= y * w + x && y * w + x + 1 <= w * h) by (nonlinear_arith)
            requires
                0 <= x < w,
                0 <= y < h,
        ;
    }

    /// Takes `data` as the pixels of an image `width` by `height`. The
    /// bytes are taken if and only if there are enough of them; bytes after
    /// the last pixel are never read.
    pub fn from_rgba(width: u32, height: u32, data: Vec<u8>) -> (atlas: Result<Atlas, AtlasError>)
        ensures
            Self::enough_bytes(width, height, data@.len()) <==> atlas is Ok,
            atlas matches Ok(image) ==> image.wf() && image.spec_width() == width
                && image.spec_height() == height && image.bytes() == data@,
            atlas matches Err(error) ==> error == AtlasError::TooFewBytes,
    {
        assert(0 <= width * height <= 0xffff_ffff * 0xffff_ffff) by (nonlinear_arith)
            requires
                0 <= width <= 0xffff_ffff,
                0 <= height <= 0xffff_ffff,
        ;
        let pixels: u64 = (width as u64) * (height as u64);
        let needed: u128 = 4 * (pixels as u128);
        if needed <= data.len() as u128 {
            Ok(Atlas { width, height, data })
        } else {
            Err(AtlasError::TooFewBytes)
        }
    }

    /// Decodes an encoded image, such as the bytes of a PNG file, into an
    /// atlas.
    pub fn decode(bytes: &[u8]) -> (atlas: Result<Atlas, AtlasError>)
        ensures
            match decoded_image(bytes@) {
                None => atlas == Err::<Atlas, AtlasError>(AtlasError::Undecodable),
                Some((width, height, data)) => {
                    if Self::enough_bytes(width, height, data.len()) {
                        atlas matches Ok(image) && image.wf() && image.spec_width() == width
                            && image.spec_height() == height && image.bytes() == data
                    } else {
                        atlas == Err::<Atlas, AtlasError>(AtlasError::TooFewBytes)
                    }
                },
            },
    {
        match decode_rgba(bytes) {
            None => Err(AtlasError::Undecodable),
            Some((width, height, data)) => Self::from_rgba(width, height, data),
        }
    }

    /// The pixel in column `x` of row `y`.
    pub fn pixel(&self, x: u32, y: u32) -> (color: Rgba)
        requires
            self.has(x as int, y as int),
        ensures
            color == self.at(x as int, y as int),
    {
        proof {
            use_type_invariant(self);
            self.lemma_pixel_in_bytes(x as int, y as int);
        }
        let w = self.width as usize;
        assert(0 <= y * w <= y * w + x < self.width * self.height) by (nonlinear_arith)
            requires
                0 <= x < self.width,
                0 <= y < self.height,
                w == self.width,
        ;
        let len = self.data.len();
        assert(4 * (y * w + x) + 3 < len);
        let first: usize = 4 * (y as usize * w + x as usize);
        Rgba {
            r: self.data[first],
            g: self.data[first + 1],
            b: self.data[first + 2],
            a: self.data[first + 3],
        }
    }

    /// The pixel in column `x` of row `y`, if the image has one there.
    pub fn get_pixel(&self, x: u32, y: u32) -> (color: Option<Rgba>)
        ensures
            color == if self.has(x as int, y as int) {
                Some(self.at(x as int, y as int))
            } else {
                None
            },
    {
        if x < self.width && y < self.height {
            Some(self.pixel(x, y))
        } else {
            None
        }
    }

    /// Whether the rectangle lies within the image.
    pub fn contains(&self, region: &Patch) -> (inside: bool)
        ensures
            inside == self.holds(*region),
    {
        region.is_within(self.width, self.height)
    }

    /// Whether all six faces around the front face lie within the image.
    pub fn contains_cuboid(&self, front: &Patch) -> (inside: bool)
        ensures
            inside == self.holds_cuboid(*front),
    {
        front.does_unfold_within(self.width, self.height)
    }
}

} // verus!
