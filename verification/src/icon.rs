//! The program's icons, which come as PNG files.
use vstd::prelude::*;

verus! {

/// An icon as rows of pixels, four bytes each: red, green, blue, opacity.
pub struct Icon {
    pub rgba: Vec<u8>,
    pub width: u32,
    pub height: u32,
}

/// What `image::load_from_memory_with_format` makes of the bytes of a PNG file, as
/// RGBA pixels with their width and height: `None` where it is no such image.
pub uninterp spec fn pixels_in(file: Seq<u8>) -> Option<(Seq<u8>, u32, u32)>;

/// `image::load_from_memory_with_format` decodes a PNG image with the decoder of
/// that format, and `into_rgba8` converts it; what comes of it depends on the
/// bytes alone.
#[verifier::external_body]
fn pixels(file: &[u8]) -> (found: Option<(Vec<u8>, u32, u32)>)
    ensures
        match found {
            Some((rgba, width, height)) => pixels_in(file@) == Some((rgba@, width, height)),
            None => pixels_in(file@) is None,
        },
{
    let picture = image::load_from_memory_with_format(file, image::ImageFormat::Png).ok()?.into_rgba8();
    let (width, height) = picture.dimensions();
    Some((picture.into_raw(), width, height))
}

/// Reads an icon from the bytes of a PNG file.
pub fn decode_icon(file: &[u8]) -> (icon: Option<Icon>)
    ensures
        match icon {
            Some(i) => pixels_in(file@) == Some((i.rgba@, i.width, i.height)),
            None => pixels_in(file@) is None,
        },
{
    match pixels(file) {
        Some((rgba, width, height)) => Some(Icon { rgba, width, height }),
        None => None,
    }
}

/// An icon has the pixels, the width and the height of the image, and there is one
/// exactly if the file holds an image.
pub proof fn law_icon_is_the_image(
    file: &[u8],
    icon: Option<Icon>,
    rgba: Seq<u8>,
    width: u32,
    height: u32,
)
    requires
        call_ensures(decode_icon, (file,), icon),
    ensures
        pixels_in(file@) is None <==> icon is None,
        pixels_in(file@) == Some((rgba, width, height)) ==> (icon matches Some(i) && i.rgba@ == rgba
            && i.width == width && i.height == height),
{
}

} // verus!
