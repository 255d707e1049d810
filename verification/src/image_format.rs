//! Image container formats by numeric identifier, as the host hands them
//! across its boundary.

use vstd::prelude::*;

verus! {

/// Image container format a payload may be encoded in.
#[derive(Clone, Copy, Debug, PartialEq, Eq, Structural)]
pub enum ImageFormat {
    Png,
    Jpeg,
    Gif,
    WebP,
    Pnm,
    Tiff,
    Tga,
    Dds,
    Bmp,
    Ico,
    Hdr,
    OpenExr,
    Farbfeld,
    Avif,
    Qoi,
}

/// Error of the image helpers.
#[derive(Clone, Copy, Debug, PartialEq, Eq, Structural)]
pub enum ImageUtilError {
    WrongImageFormatId(i32),
}

/// The format a numeric identifier stands for: identifiers 0 through 14 name
/// the formats in declaration order.
pub open spec fn spec_image_format_from_id(id: i32) -> Option<ImageFormat> {
    if id == 0 {
        Some(ImageFormat::Png)
    } else if id == 1 {
        Some(ImageFormat::Jpeg)
    } else if id == 2 {
        Some(ImageFormat::Gif)
    } else if id == 3 {
        Some(ImageFormat::WebP)
    } else if id == 4 {
        Some(ImageFormat::Pnm)
    } else if id == 5 {
        Some(ImageFormat::Tiff)
    } else if id == 6 {
        Some(ImageFormat::Tga)
    } else if id == 7 {
        Some(ImageFormat::Dds)
    } else if id == 8 {
        Some(ImageFormat::Bmp)
    } else if id == 9 {
        Some(ImageFormat::Ico)
    } else if id == 10 {
        Some(ImageFormat::Hdr)
    } else if id == 11 {
        Some(ImageFormat::OpenExr)
    } else if id == 12 {
        Some(ImageFormat::Farbfeld)
    } else if id == 13 {
        Some(ImageFormat::Avif)
    } else if id == 14 {
        Some(ImageFormat::Qoi)
    } else {
        None
    }
}

/// The image format of a numeric identifier; identifiers outside 0 through 14
/// are rejected with `WrongImageFormatId` carrying the offending identifier.
pub fn image_format_from_id(id: i32) -> (r: Result<ImageFormat, ImageUtilError>)
    ensures
        r is Ok <==> spec_image_format_from_id(id) is Some,
        r is Ok ==> Some(r->Ok_0) == spec_image_format_from_id(id),
        r is Err ==> r->Err_0 == ImageUtilError::WrongImageFormatId(id),
{
    match id {
        0 => Ok(ImageFormat::Png),
        1 => Ok(ImageFormat::Jpeg),
        2 => Ok(ImageFormat::Gif),
        3 => Ok(ImageFormat::WebP),
        4 => Ok(ImageFormat::Pnm),
        5 => Ok(ImageFormat::Tiff),
        6 => Ok(ImageFormat::Tga),
        7 => Ok(ImageFormat::Dds),
        8 => Ok(ImageFormat::Bmp),
        9 => Ok(ImageFormat::Ico),
        10 => Ok(ImageFormat::Hdr),
        11 => Ok(ImageFormat::OpenExr),
        12 => Ok(ImageFormat::Farbfeld),
        13 => Ok(ImageFormat::Avif),
        14 => Ok(ImageFormat::Qoi),
        _ => Err(ImageUtilError::WrongImageFormatId(id)),
    }
}

} // verus!
