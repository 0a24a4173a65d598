//! The pixel format in which an image is handed to a texture.
use vstd::prelude::*;

verus! {

#[verifier::external_type_specification]
pub struct ExColorType(image::ColorType);

/// The number of colour channels of each colour type.
pub open spec fn color_channels(color: image::ColorType) -> u8 {
    match color {
        image::ColorType::L8 | image::ColorType::L16 => 1,
        image::ColorType::La8 | image::ColorType::La16 => 2,
        image::ColorType::Rgb8 | image::ColorType::Rgb16 | image::ColorType::Rgb32F => 3,
        // Rgba8, Rgba16 and Rgba32F: the enum is marked non-exhaustive, so
        // the remaining variants are matched by a wildcard.
        _ => 4,
    }
}

/// Relies on `ColorType::channel_count`: luminance types have one channel,
/// luminance with alpha two, RGB three and RGBA four, at every bit depth.
pub assume_specification[ image::ColorType::channel_count ](self_: image::ColorType) -> (r: u8)
    ensures
        r == color_channels(self_),
;

/// The pixel formats that a texture is loaded from.
#[derive(Debug, Clone, Copy, PartialEq, Eq, Structural)]
pub enum TextureFormat {
    /// One channel: red.
    R,
    /// Three channels: red, green, blue.
    Rgb,
    /// Four channels: red, green, blue, alpha.
    Rgba,
}

/// An image whose number of colour channels no texture format takes.
#[derive(Debug, Clone, Copy, PartialEq, Eq, Structural)]
pub struct UnsupportedChannelCount {
    pub channel_count: u8,
}

/// The format for pixels of `channel_count` channels, if there is one.
pub open spec fn format_for_channels(channel_count: u8) -> Option<TextureFormat> {
    if channel_count == 1 {
        Some(TextureFormat::R)
    } else if channel_count == 3 {
        Some(TextureFormat::Rgb)
    } else if channel_count == 4 {
        Some(TextureFormat::Rgba)
    } else {
        None
    }
}

/// The result of choosing a format for pixels of `channel_count` channels.
pub open spec fn format_result(channel_count: u8) -> Result<TextureFormat, UnsupportedChannelCount> {
    match format_for_channels(channel_count) {
        Some(format) => Ok(format),
        None => Err(UnsupportedChannelCount { channel_count }),
    }
}

/// The format for pixels of `channel_count` channels: one, three and four
/// channels are taken, any other count is refused.
pub fn texture_format_for_channels(channel_count: u8) -> (r: Result<TextureFormat, UnsupportedChannelCount>)
    ensures
        r == format_result(channel_count),
{
    match channel_count {
        1 => Ok(TextureFormat::R),
        3 => Ok(TextureFormat::Rgb),
        4 => Ok(TextureFormat::Rgba),
        _ => Err(UnsupportedChannelCount { channel_count }),
    }
}

/// The format for pixels of colour type `color`, by its number of channels.
/// Colour types of two channels (luminance and alpha) are refused.
pub fn texture_format_of_color(color: image::ColorType) -> (r: Result<TextureFormat, UnsupportedChannelCount>)
    ensures
        r == format_result(color_channels(color)),
{
    texture_format_for_channels(color.channel_count())
}

} // verus!
