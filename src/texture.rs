use vstd::prelude::*;

verus! {

/// An atlas of glyph distance fields: one byte per texel, rows laid out one
/// after another.
pub struct Atlas {
    pub distance_field: Vec<u8>,
    pub resolution: (usize, usize),
}

/// A single-channel, 8-bit image ready to be uploaded as a 2D texture. The
/// texel bytes are borrowed from the caller, not copied.
pub struct RawU8Image<'a> {
    pub data: &'a [u8],
    pub width: u32,
    pub height: u32,
}

/// Why an image could not be turned into a texture.
#[derive(Debug, Clone, Copy, PartialEq, Eq, Structural)]
pub enum TextureCreationError {
    /// A side does not fit the 32 bits that the device takes.
    DimensionsNotSupported,
    /// The number of bytes is not `width * height`.
    DataSizeMismatch,
}

/// Whether `dimensions` fit a texture's 32-bit sides.
pub open spec fn dimensions_supported(dimensions: (usize, usize)) -> bool {
    dimensions.0 <= u32::MAX && dimensions.1 <= u32::MAX
}

/// Describes `data` as a `dimensions.0` by `dimensions.1` single-channel image.
/// Fails when a side does not fit in 32 bits, and otherwise when the byte count
/// is not the texel count.
pub fn raw_u8_texture<'a>(data: &'a [u8], dimensions: (usize, usize)) -> (r: Result<
    RawU8Image<'a>,
    TextureCreationError,
>)
    ensures
        !dimensions_supported(dimensions) ==> r == Err::<RawU8Image<'a>, _>(
            TextureCreationError::DimensionsNotSupported,
        ),
        dimensions_supported(dimensions) && data@.len() != dimensions.0 * dimensions.1 ==> r
            == Err::<RawU8Image<'a>, _>(TextureCreationError::DataSizeMismatch),
        dimensions_supported(dimensions) && data@.len() == dimensions.0 * dimensions.1 ==> r
            is Ok,
        r matches Ok(image) ==> {
            &&& image.data@ == data@
            &&& image.width == dimensions.0
            &&& image.height == dimensions.1
        },
{
    let (width, height) = dimensions;
    let len = data.len();
    if width > u32::MAX as usize || height > u32::MAX as usize {
        return Err(TextureCreationError::DimensionsNotSupported);
    }
    match width.checked_mul(height) {
        Some(texels) => {
            if texels == len {
                Ok(RawU8Image { data, width: width as u32, height: height as u32 })
            } else {
                Err(TextureCreationError::DataSizeMismatch)
            }
        },
        None => Err(TextureCreationError::DataSizeMismatch),
    }
}

/// Describes the distance field of `atlas` as a single-channel image of the
/// atlas's resolution, with the same failures as `raw_u8_texture`.
pub fn atlas_texture(atlas: &Atlas) -> (r: Result<RawU8Image<'_>, TextureCreationError>)
    ensures
        !dimensions_supported(atlas.resolution) ==> r == Err::<RawU8Image<'_>, _>(
            TextureCreationError::DimensionsNotSupported,
        ),
        dimensions_supported(atlas.resolution) && atlas.distance_field@.len() != atlas.resolution.0
            * atlas.resolution.1 ==> r == Err::<RawU8Image<'_>, _>(
            TextureCreationError::DataSizeMismatch,
        ),
        dimensions_supported(atlas.resolution) && atlas.distance_field@.len() == atlas.resolution.0
            * atlas.resolution.1 ==> r is Ok,
        r matches Ok(image) ==> {
            &&& image.data@ == atlas.distance_field@
            &&& image.width == atlas.resolution.0
            &&& image.height == atlas.resolution.1
        },
{
    raw_u8_texture(atlas.distance_field.as_slice(), atlas.resolution)
}

} // verus!
