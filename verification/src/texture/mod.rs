//! Textures: colour as a function of where a surface is struck.

pub mod image;
pub mod perlin;

use crate::util::Key;
use vstd::prelude::*;

verus! {

/// Surface coordinates `(u, v)` of a point on an object.
pub type UVCoord = (Key, Key);

/// A texture function, named by the number under which the embedding
/// program keeps it. The function itself maps surface coordinates and a
/// point to a colour and is evaluated outside this crate.
#[derive(Copy, Clone, Debug, PartialEq, Eq, Structural)]
pub struct Texture(pub usize);

} // verus!
