use image::ColorType;
use learnopenrgl::utils::{
    texture_format_for_channels, texture_format_of_color, TextureFormat, UnsupportedChannelCount,
};

#[test]
fn supported_channel_counts() {
    assert_eq!(texture_format_for_channels(1), Ok(TextureFormat::R));
    assert_eq!(texture_format_for_channels(3), Ok(TextureFormat::Rgb));
    assert_eq!(texture_format_for_channels(4), Ok(TextureFormat::Rgba));
}

#[test]
fn unsupported_channel_counts() {
    for channel_count in [0u8, 2, 5, 255] {
        assert_eq!(
            texture_format_for_channels(channel_count),
            Err(UnsupportedChannelCount { channel_count })
        );
    }
}

#[test]
fn format_of_each_color_type() {
    assert_eq!(texture_format_of_color(ColorType::L8), Ok(TextureFormat::R));
    assert_eq!(texture_format_of_color(ColorType::L16), Ok(TextureFormat::R));
    assert_eq!(texture_format_of_color(ColorType::Rgb8), Ok(TextureFormat::Rgb));
    assert_eq!(texture_format_of_color(ColorType::Rgb16), Ok(TextureFormat::Rgb));
    assert_eq!(texture_format_of_color(ColorType::Rgb32F), Ok(TextureFormat::Rgb));
    assert_eq!(texture_format_of_color(ColorType::Rgba8), Ok(TextureFormat::Rgba));
    assert_eq!(texture_format_of_color(ColorType::Rgba16), Ok(TextureFormat::Rgba));
    assert_eq!(texture_format_of_color(ColorType::Rgba32F), Ok(TextureFormat::Rgba));
}

#[test]
fn format_of_decoded_images() {
    let rgb = image::DynamicImage::new_rgb8(2, 2);
    assert_eq!(texture_format_of_color(rgb.color()), Ok(TextureFormat::Rgb));
    let luma = image::DynamicImage::new_luma8(2, 2);
    assert_eq!(texture_format_of_color(luma.color()), Ok(TextureFormat::R));
}

#[test]
fn luminance_alpha_is_refused() {
    for color in [ColorType::La8, ColorType::La16] {
        assert_eq!(
            texture_format_of_color(color),
            Err(UnsupportedChannelCount { channel_count: 2 })
        );
    }
}
