//! Sprites for a 2.5D engine from the skin of a block figure.
//!
//! A skin is one small image, the atlas, that holds the unwrapped surfaces
//! of six cuboids and of the overlays around them. This library builds a
//! puppet from the atlas, lets it strike the poses of a fixed animation and
//! says which frames are captured of it, under which names and in which
//! order. It draws nothing itself: every length is an integer in a named
//! unit, every angle an exact fraction, and whoever owns a drawing surface
//! follows the scripts in [`render`].
//!
//! - [`patch`], [`atlas`], [`color`], [`gamma`]: the atlas, its regions and
//!   the decoding of its colours to linear light
//! - [`geometry`], [`limb`], [`trim`], [`skin`]: the puppet and its poses
//! - [`render`], [`frames`]: the scripts and the frames they amount to
//! - [`sprite`], [`converting`], [`item`]: names and the rules for entries
//! - [`archive`]: the archive that takes the finished images

pub mod archive;
pub mod atlas;
pub mod color;
pub mod converting;
pub mod frames;
pub mod gamma;
pub mod geometry;
pub mod item;
pub mod limb;
pub mod patch;
pub mod render;
pub mod skin;
pub mod sprite;
pub mod trim;
