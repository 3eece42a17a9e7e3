//! The colour types (channels and bit depth) of decoded images.
use vstd::prelude::*;
use crate::roseate_core::error::Error;

verus! {

#[derive(Debug, Clone, Copy, PartialEq, Eq, Structural)]
pub enum ImageColourType {
    Grey8,
    Grey16,
    Grey32F,
    GreyA8,
    GreyA16,
    GreyA32F,
    Rgb8,
    Rgb16,
    Rgb32F,
    Rgba8,
    Rgba16,
    Rgba32F,
}

/// The colour types a decoder of the `image` crate reports (`image::ColorType`),
/// one variant for each of its variants; `Other` stands for any variant the crate may add.
#[derive(Debug, Clone, Copy, PartialEq, Eq, Structural)]
pub enum ColorTypeKind {
    L8,
    La8,
    Rgb8,
    Rgba8,
    L16,
    La16,
    Rgb16,
    Rgba16,
    Rgb32F,
    Rgba32F,
    Other,
}

/// The name a colour type is shown with.
pub open spec fn colour_type_text(colour_type: ImageColourType) -> Seq<char> {
    match colour_type {
        ImageColourType::Grey8 => "Greyscale (8-bit)"@,
        ImageColourType::Grey16 => "Greyscale (16-bit)"@,
        ImageColourType::Grey32F => "Greyscale (32-bit float)"@,
        ImageColourType::GreyA8 => "Greyscale + Alpha (8-bit)"@,
        ImageColourType::GreyA16 => "Greyscale + Alpha (16-bit)"@,
        ImageColourType::GreyA32F => "Greyscale + Alpha (32-bit float)"@,
        ImageColourType::Rgb8 => "RGB (8-bit)"@,
        ImageColourType::Rgb16 => "RGB (16-bit)"@,
        ImageColourType::Rgb32F => "RGB (32-bit)"@,
        ImageColourType::Rgba8 => "RGBA (8-bit)"@,
        ImageColourType::Rgba16 => "RGBA (16-bit)"@,
        ImageColourType::Rgba32F => "RGBA (32-bit float)"@,
    }
}

/// The colour type roseate decodes a decoder's colour type as; the grey and alpha
/// float types, and any other, are not supported.
pub open spec fn colour_type_of_kind(kind: ColorTypeKind) -> Option<ImageColourType> {
    match kind {
        ColorTypeKind::L8 => Some(ImageColourType::Grey8),
        ColorTypeKind::L16 => Some(ImageColourType::Grey16),
        ColorTypeKind::La8 => Some(ImageColourType::GreyA8),
        ColorTypeKind::La16 => Some(ImageColourType::GreyA16),
        ColorTypeKind::Rgb8 => Some(ImageColourType::Rgb8),
        ColorTypeKind::Rgb16 => Some(ImageColourType::Rgb16),
        ColorTypeKind::Rgb32F => Some(ImageColourType::Rgb32F),
        ColorTypeKind::Rgba8 => Some(ImageColourType::Rgba8),
        ColorTypeKind::Rgba16 => Some(ImageColourType::Rgba16),
        ColorTypeKind::Rgba32F => Some(ImageColourType::Rgba32F),
        ColorTypeKind::Other => None,
    }
}

/// The bytes a pixel of a decoder's colour type takes (`image::ColorType::bytes_per_pixel`);
/// 0 for a colour type the library does not tell apart.
pub open spec fn bytes_per_pixel(kind: ColorTypeKind) -> int {
    match kind {
        ColorTypeKind::L8 => 1,
        ColorTypeKind::L16 | ColorTypeKind::La8 => 2,
        ColorTypeKind::Rgb8 => 3,
        ColorTypeKind::Rgba8 | ColorTypeKind::La16 => 4,
        ColorTypeKind::Rgb16 => 6,
        ColorTypeKind::Rgba16 => 8,
        ColorTypeKind::Rgb32F => 12,
        ColorTypeKind::Rgba32F => 16,
        ColorTypeKind::Other => 0,
    }
}

/// Whether a colour type holds one byte per channel.
pub open spec fn is_eight_bit(colour_type: ImageColourType) -> bool {
    colour_type is Grey8 || colour_type is GreyA8 || colour_type is Rgb8 || colour_type is Rgba8
}

/// The channels of a pixel of an 8-bit colour type (0 for the others).
pub open spec fn channels(colour_type: ImageColourType) -> int {
    match colour_type {
        ImageColourType::Grey8 => 1,
        ImageColourType::GreyA8 => 2,
        ImageColourType::Rgb8 => 3,
        ImageColourType::Rgba8 => 4,
        _ => 0,
    }
}

impl ImageColourType {
    /// The name the colour type is shown with, such as `RGBA (8-bit)`.
    pub fn description(&self) -> (text: String)
        ensures
            text@ == colour_type_text(*self),
    {
        match self {
            ImageColourType::Grey8 => String::from_str("Greyscale (8-bit)"),
            ImageColourType::Grey16 => String::from_str("Greyscale (16-bit)"),
            ImageColourType::Grey32F => String::from_str("Greyscale (32-bit float)"),
            ImageColourType::GreyA8 => String::from_str("Greyscale + Alpha (8-bit)"),
            ImageColourType::GreyA16 => String::from_str("Greyscale + Alpha (16-bit)"),
            ImageColourType::GreyA32F => String::from_str("Greyscale + Alpha (32-bit float)"),
            ImageColourType::Rgb8 => String::from_str("RGB (8-bit)"),
            ImageColourType::Rgb16 => String::from_str("RGB (16-bit)"),
            ImageColourType::Rgb32F => String::from_str("RGB (32-bit)"),
            ImageColourType::Rgba8 => String::from_str("RGBA (8-bit)"),
            ImageColourType::Rgba16 => String::from_str("RGBA (16-bit)"),
            ImageColourType::Rgba32F => String::from_str("RGBA (32-bit float)"),
        }
    }

    /// The colour type a decoder's colour type is decoded as, or
    /// `Error::UnsupportedColourType` for one roseate does not support.
    pub fn try_from(value: ColorTypeKind) -> (result: Result<Self, Error>)
        ensures
            match colour_type_of_kind(value) {
                Some(colour_type) => result matches Ok(c) && c == colour_type,
                None => result matches Err(Error::UnsupportedColourType),
            },
    {
        let image_colour_type = match value {
            ColorTypeKind::L8 => Self::Grey8,
            ColorTypeKind::L16 => Self::Grey16,
            ColorTypeKind::La8 => Self::GreyA8,
            ColorTypeKind::La16 => Self::GreyA16,
            ColorTypeKind::Rgb8 => Self::Rgb8,
            ColorTypeKind::Rgb16 => Self::Rgb16,
            ColorTypeKind::Rgb32F => Self::Rgb32F,
            ColorTypeKind::Rgba8 => Self::Rgba8,
            ColorTypeKind::Rgba16 => Self::Rgba16,
            ColorTypeKind::Rgba32F => Self::Rgba32F,
            _ => return Err(Error::UnsupportedColourType),
        };
        Ok(image_colour_type)
    }
}

} // verus!
