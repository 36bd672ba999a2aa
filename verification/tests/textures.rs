use gamekit::commands::Command;
use gamekit::texture::{
    decode, get_aligned_size, ColorType, Image, PixelFormat, Texture, TextureData,
};

fn image(color_type: ColorType, width: u32, height: u32, pixels: Vec<u8>) -> Image {
    Image { color_type, width, height, palette: None, pixels }
}

fn png_file(color: png::ColorType, width: u32, height: u32, palette: Option<Vec<u8>>, pixels: &[u8]) -> Vec<u8> {
    let mut file = Vec::new();
    {
        let mut encoder = png::Encoder::new(&mut file, width, height);
        encoder.set_color(color);
        encoder.set_depth(png::BitDepth::Eight);
        if let Some(palette) = palette {
            encoder.set_palette(palette);
        }
        let mut writer = encoder.write_header().unwrap();
        writer.write_image_data(pixels).unwrap();
    }
    file
}

#[test]
fn aligned_size_rounds_up_to_the_alignment() {
    assert_eq!(get_aligned_size(10, 4), 12);
    assert_eq!(get_aligned_size(12, 4), 12);
    assert_eq!(get_aligned_size(13, 8), 16);
    assert_eq!(get_aligned_size(0, 4), 0);
    assert_eq!(get_aligned_size(1, 2), 2);
}

#[test]
fn aligned_size_below_two_is_the_size() {
    assert_eq!(get_aligned_size(10, 1), 10);
    assert_eq!(get_aligned_size(10, 0), 10);
}

#[test]
fn color_pixels_are_taken_as_they_are() {
    let rgb = image(ColorType::Rgb, 2, 1, vec![1, 2, 3, 4, 5, 6]);
    let data = TextureData::from_image(&rgb).unwrap();
    assert_eq!(data.pixels, vec![1, 2, 3, 4, 5, 6]);
    assert_eq!(data.bits_per_pixel, 24);
    assert_eq!(data.bytes_per_line, 6);
    assert_eq!(data.format, PixelFormat::Rgb);
    let rgba = image(ColorType::Rgba, 1, 2, vec![1, 2, 3, 4, 5, 6, 7, 8]);
    let data = TextureData::from_image(&rgba).unwrap();
    assert_eq!(data.pixels, vec![1, 2, 3, 4, 5, 6, 7, 8]);
    assert_eq!(data.bits_per_pixel, 32);
    assert_eq!(data.bytes_per_line, 4);
    assert_eq!(data.format, PixelFormat::Rgba);
    assert_eq!((data.width, data.height), (1, 2));
}

#[test]
fn surplus_bytes_are_left_out() {
    let rgb = image(ColorType::Rgb, 1, 1, vec![1, 2, 3, 4, 5]);
    assert_eq!(TextureData::from_image(&rgb).unwrap().pixels, vec![1, 2, 3]);
}

#[test]
fn gray_is_spread_over_three_channels() {
    let gray = image(ColorType::Grayscale, 2, 2, vec![10, 20, 30, 40]);
    let data = TextureData::from_image(&gray).unwrap();
    assert_eq!(data.pixels, vec![10, 10, 10, 20, 20, 20, 30, 30, 30, 40, 40, 40]);
    assert_eq!(data.bits_per_pixel, 24);
    assert_eq!(data.bytes_per_line, 6);
    assert_eq!(data.format, PixelFormat::Rgb);
}

#[test]
fn gray_with_alpha_keeps_the_alpha() {
    let gray = image(ColorType::GrayscaleAlpha, 2, 1, vec![10, 255, 20, 128]);
    let data = TextureData::from_image(&gray).unwrap();
    assert_eq!(data.pixels, vec![10, 10, 10, 255, 20, 20, 20, 128]);
    assert_eq!(data.bits_per_pixel, 32);
    assert_eq!(data.bytes_per_line, 8);
    assert_eq!(data.format, PixelFormat::Rgba);
}

#[test]
fn palette_indices_are_looked_up() {
    let indexed = Image {
        color_type: ColorType::Indexed,
        width: 4,
        height: 1,
        palette: Some(vec![1, 2, 3, 4, 5, 6, 7, 8, 9]),
        pixels: vec![1, 0, 2, 3],
    };
    let data = TextureData::from_image(&indexed).unwrap();
    // an index beyond the palette comes out black
    assert_eq!(data.pixels, vec![4, 5, 6, 1, 2, 3, 7, 8, 9, 0, 0, 0]);
    assert_eq!(data.format, PixelFormat::Rgb);
}

#[test]
fn palette_entry_cut_short_is_black() {
    let indexed = Image {
        color_type: ColorType::Indexed,
        width: 2,
        height: 1,
        palette: Some(vec![1, 2, 3, 4, 5]),
        pixels: vec![0, 1],
    };
    let data = TextureData::from_image(&indexed).unwrap();
    assert_eq!(data.pixels, vec![1, 2, 3, 0, 0, 0]);
}

#[test]
fn images_that_cannot_be_converted() {
    let short = image(ColorType::Rgb, 2, 2, vec![0; 11]);
    assert_eq!(TextureData::from_image(&short).unwrap_err(), "failed to decode bitmap file");
    let no_palette = image(ColorType::Indexed, 1, 1, vec![0]);
    assert_eq!(TextureData::from_image(&no_palette).unwrap_err(), "failed to decode bitmap file");
    let huge = image(ColorType::Grayscale, u32::MAX, u32::MAX, vec![0; 16]);
    assert_eq!(TextureData::from_image(&huge).unwrap_err(), "failed to decode bitmap file");
}

#[test]
fn empty_image_converts_to_nothing() {
    let empty = image(ColorType::Grayscale, 0, 5, vec![]);
    let data = TextureData::from_image(&empty).unwrap();
    assert!(data.pixels.is_empty());
    assert_eq!(data.bytes_per_line, 0);
}

#[test]
fn decode_reads_a_color_file() {
    let file = png_file(png::ColorType::Rgba, 2, 1, None, &[1, 2, 3, 4, 5, 6, 7, 8]);
    let data = decode(&file).unwrap();
    assert_eq!((data.width, data.height), (2, 1));
    assert_eq!(data.pixels, vec![1, 2, 3, 4, 5, 6, 7, 8]);
    assert_eq!(data.format, PixelFormat::Rgba);
}

#[test]
fn decode_converts_gray_and_indexed_files() {
    let file = png_file(png::ColorType::Grayscale, 3, 1, None, &[7, 8, 9]);
    let data = decode(&file).unwrap();
    assert_eq!(data.pixels, vec![7, 7, 7, 8, 8, 8, 9, 9, 9]);
    let file = png_file(png::ColorType::GrayscaleAlpha, 1, 2, None, &[7, 100, 9, 200]);
    let data = decode(&file).unwrap();
    assert_eq!(data.pixels, vec![7, 7, 7, 100, 9, 9, 9, 200]);
    let palette = vec![10, 11, 12, 20, 21, 22, 30, 31, 32];
    let file = png_file(png::ColorType::Indexed, 2, 1, Some(palette), &[1, 0]);
    let data = decode(&file).unwrap();
    assert_eq!(data.pixels, vec![20, 21, 22, 10, 11, 12]);
    assert_eq!(data.bits_per_pixel, 24);
}

#[test]
fn decode_refuses_what_is_no_png() {
    assert_eq!(decode(&vec![]).unwrap_err(), "failed to decode bitmap file");
    assert_eq!(decode(&b"not a png file".to_vec()).unwrap_err(), "failed to decode bitmap file");
    let mut file = png_file(png::ColorType::Rgb, 1, 1, None, &[1, 2, 3]);
    file.truncate(40);
    assert_eq!(decode(&file).unwrap_err(), "failed to decode bitmap file");
}

#[test]
fn texture_from_uploaded_data() {
    let data = TextureData::from_image(&image(ColorType::Grayscale, 2, 3, vec![0; 6])).unwrap();
    let texture = Texture::new(8, &data, true).unwrap();
    assert_eq!(texture.id(), 8);
    assert_eq!((texture.width(), texture.height()), (2, 3));
    let failed = Texture::new(8, &data, false);
    assert_eq!(failed.unwrap_err(), "failed: TexImage2D");
}

#[test]
fn texture_binds_at_a_unit_and_frees_once() {
    let data = TextureData::from_image(&image(ColorType::Rgb, 1, 1, vec![0; 3])).unwrap();
    let mut texture = Texture::new(8, &data, true).unwrap();
    let mut queue = Vec::new();
    texture.bind(&mut queue, 3);
    texture.unbind(&mut queue);
    texture.free(&mut queue);
    texture.free(&mut queue);
    assert_eq!(
        queue,
        vec![
            Command::BindTexture { id: 8, unit: 3 },
            Command::UnbindTexture,
            Command::DeleteTexture { id: 8 },
        ]
    );
    assert_eq!(texture.id(), 0);
}
