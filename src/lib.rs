//! Text drawn from a signed distance field atlas: the geometry of a run of
//! laid-out glyphs as 16-bit indexed quads, the description of the atlas as a
//! single-channel texture, and the shader program that draws the geometry in
//! one solid colour.
use vstd::prelude::*;

pub mod mesh;
pub mod shading;
pub mod texture;

pub use mesh::{
    GlyphLayout, GlyphLimitExceeded, GlyphQuadVertex, Quad, TextMesh,
    TextMeshCreationError, MAX_GLYPHS, MAX_VERTICES,
};
pub use shading::{SolidTextProgram, FRAGMENT_SHADER, VERTEX_SHADER};
pub use texture::{atlas_texture, raw_u8_texture, Atlas, RawU8Image, TextureCreationError};

verus! {

} // verus!
