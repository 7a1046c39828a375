use std::io::Cursor;

use bevy_terrain::error::TerrainError;
use bevy_terrain::raster::HeightRaster;
use image::{DynamicImage, ImageBuffer, ImageFormat, Luma, Rgb};

fn png_luma16(width: u32, height: u32, samples: Vec<u16>) -> Vec<u8> {
    let buffer: ImageBuffer<Luma<u16>, Vec<u16>> =
        ImageBuffer::from_raw(width, height, samples).unwrap();
    let mut bytes = Cursor::new(Vec::new());
    buffer.write_to(&mut bytes, ImageFormat::Png).unwrap();
    bytes.into_inner()
}

fn png_luma8(width: u32, height: u32, samples: Vec<u8>) -> Vec<u8> {
    let buffer: ImageBuffer<Luma<u8>, Vec<u8>> =
        ImageBuffer::from_raw(width, height, samples).unwrap();
    let mut bytes = Cursor::new(Vec::new());
    buffer.write_to(&mut bytes, ImageFormat::Png).unwrap();
    bytes.into_inner()
}

fn png_rgb16(width: u32, height: u32, samples: Vec<u16>) -> Vec<u8> {
    let buffer: ImageBuffer<Rgb<u16>, Vec<u16>> =
        ImageBuffer::from_raw(width, height, samples).unwrap();
    let mut bytes = Cursor::new(Vec::new());
    buffer.write_to(&mut bytes, ImageFormat::Png).unwrap();
    bytes.into_inner()
}

#[test]
fn from_samples_keeps_sides_and_cells() {
    let raster = HeightRaster::from_samples(3, 2, vec![1, 2, 3, 4, 5, 6]).unwrap();
    assert_eq!(raster.width(), 3);
    assert_eq!(raster.height(), 2);
    assert_eq!(raster.sample(0, 0), Some(1));
    assert_eq!(raster.sample(1, 0), Some(2));
    assert_eq!(raster.sample(2, 0), Some(3));
    assert_eq!(raster.sample(0, 1), Some(4));
    assert_eq!(raster.sample(1, 1), Some(5));
    assert_eq!(raster.sample(2, 1), Some(6));
}

#[test]
fn sample_outside_the_raster_is_none() {
    let raster = HeightRaster::from_samples(3, 2, vec![1, 2, 3, 4, 5, 6]).unwrap();
    assert_eq!(raster.sample(3, 0), None);
    assert_eq!(raster.sample(0, 2), None);
    assert_eq!(raster.sample(3, 2), None);
    assert_eq!(raster.sample(u32::MAX, u32::MAX), None);
}

#[test]
fn sample_reaches_the_full_range() {
    let raster = HeightRaster::from_samples(2, 1, vec![0, 65535]).unwrap();
    assert_eq!(raster.sample(0, 0), Some(0));
    assert_eq!(raster.sample(1, 0), Some(65535));
}

#[test]
fn from_samples_rejects_zero_sides() {
    assert!(matches!(
        HeightRaster::from_samples(0, 2, vec![]),
        Err(TerrainError::InvalidDimensions)
    ));
    assert!(matches!(
        HeightRaster::from_samples(2, 0, vec![]),
        Err(TerrainError::InvalidDimensions)
    ));
    assert!(matches!(
        HeightRaster::from_samples(0, 0, vec![]),
        Err(TerrainError::InvalidDimensions)
    ));
}

#[test]
fn from_samples_rejects_a_wrong_sample_count() {
    assert!(matches!(
        HeightRaster::from_samples(2, 2, vec![1, 2, 3]),
        Err(TerrainError::InvalidDimensions)
    ));
    assert!(matches!(
        HeightRaster::from_samples(2, 2, vec![1, 2, 3, 4, 5]),
        Err(TerrainError::InvalidDimensions)
    ));
    assert!(matches!(
        HeightRaster::from_samples(1, 1, vec![]),
        Err(TerrainError::InvalidDimensions)
    ));
}

#[test]
fn from_samples_rejects_sides_beyond_any_buffer() {
    assert!(matches!(
        HeightRaster::from_samples(u32::MAX, u32::MAX, vec![7]),
        Err(TerrainError::InvalidDimensions)
    ));
    assert!(matches!(
        HeightRaster::from_samples(u32::MAX, 1, vec![7]),
        Err(TerrainError::InvalidDimensions)
    ));
}

#[test]
fn from_samples_accepts_a_single_cell() {
    let raster = HeightRaster::from_samples(1, 1, vec![42]).unwrap();
    assert_eq!(raster.width(), 1);
    assert_eq!(raster.height(), 1);
    assert_eq!(raster.sample(0, 0), Some(42));
}

#[test]
fn decode_reads_a_16_bit_luminance_png() {
    let bytes = png_luma16(3, 2, vec![0, 100, 65535, 7, 8, 9]);
    let raster = HeightRaster::decode(&bytes).unwrap();
    assert_eq!(raster.width(), 3);
    assert_eq!(raster.height(), 2);
    assert_eq!(raster.sample(0, 0), Some(0));
    assert_eq!(raster.sample(1, 0), Some(100));
    assert_eq!(raster.sample(2, 0), Some(65535));
    assert_eq!(raster.sample(0, 1), Some(7));
    assert_eq!(raster.sample(1, 1), Some(8));
    assert_eq!(raster.sample(2, 1), Some(9));
    assert_eq!(raster.sample(3, 1), None);
}

#[test]
fn decode_rejects_bytes_that_are_no_image() {
    assert!(matches!(HeightRaster::decode(&[]), Err(TerrainError::DecodeError)));
    assert!(matches!(
        HeightRaster::decode(&[1, 2, 3, 4, 5, 6, 7, 8]),
        Err(TerrainError::DecodeError)
    ));
}

#[test]
fn decode_rejects_a_truncated_png() {
    let bytes = png_luma16(4, 4, vec![9; 16]);
    assert!(matches!(
        HeightRaster::decode(&bytes[..bytes.len() / 2]),
        Err(TerrainError::DecodeError)
    ));
}

#[test]
fn decode_rejects_an_8_bit_luminance_png() {
    let bytes = png_luma8(2, 2, vec![1, 2, 3, 4]);
    assert!(matches!(HeightRaster::decode(&bytes), Err(TerrainError::DecodeError)));
}

#[test]
fn decode_rejects_a_colour_png() {
    let bytes = png_rgb16(1, 1, vec![1, 2, 3]);
    assert!(matches!(HeightRaster::decode(&bytes), Err(TerrainError::DecodeError)));
}

fn luma16_image(width: u32, height: u32, samples: Vec<u16>) -> DynamicImage {
    DynamicImage::ImageLuma16(ImageBuffer::from_raw(width, height, samples).unwrap())
}

#[test]
fn from_decoded_takes_a_16_bit_luminance_image() {
    let raster = HeightRaster::from_decoded(Ok(luma16_image(3, 2, vec![11, 12, 13, 21, 22, 23])))
        .unwrap();
    assert_eq!(raster.width(), 3);
    assert_eq!(raster.height(), 2);
    assert_eq!(raster.sample(0, 0), Some(11));
    assert_eq!(raster.sample(2, 0), Some(13));
    assert_eq!(raster.sample(0, 1), Some(21));
    assert_eq!(raster.sample(2, 1), Some(23));
    assert_eq!(raster.sample(3, 1), None);
}

#[test]
fn from_decoded_rejects_images_of_another_kind() {
    let luma8 = DynamicImage::ImageLuma8(ImageBuffer::from_raw(2, 2, vec![1u8, 2, 3, 4]).unwrap());
    assert!(matches!(HeightRaster::from_decoded(Ok(luma8)), Err(TerrainError::DecodeError)));
    let rgb16 = DynamicImage::ImageRgb16(ImageBuffer::from_raw(1, 1, vec![1u16, 2, 3]).unwrap());
    assert!(matches!(HeightRaster::from_decoded(Ok(rgb16)), Err(TerrainError::DecodeError)));
    let luma_alpha16 =
        DynamicImage::ImageLumaA16(ImageBuffer::from_raw(1, 1, vec![1u16, 2]).unwrap());
    assert!(matches!(
        HeightRaster::from_decoded(Ok(luma_alpha16)),
        Err(TerrainError::DecodeError)
    ));
}

#[test]
fn from_decoded_maps_a_failure_of_the_decoder() {
    let failure = image::load_from_memory(&[1, 2, 3]).unwrap_err();
    assert!(matches!(HeightRaster::from_decoded(Err(failure)), Err(TerrainError::DecodeError)));
}

#[test]
fn from_decoded_rejects_an_image_with_a_zero_side() {
    assert!(matches!(
        HeightRaster::from_decoded(Ok(luma16_image(0, 0, vec![]))),
        Err(TerrainError::InvalidDimensions)
    ));
    assert!(matches!(
        HeightRaster::from_decoded(Ok(luma16_image(0, 3, vec![]))),
        Err(TerrainError::InvalidDimensions)
    ));
    assert!(matches!(
        HeightRaster::from_decoded(Ok(luma16_image(3, 0, vec![]))),
        Err(TerrainError::InvalidDimensions)
    ));
}

#[test]
fn decode_is_from_decoded_of_what_the_decoder_gives() {
    let bytes = png_luma16(2, 3, vec![5, 6, 7, 8, 9, 10]);
    let decoded = HeightRaster::decode(&bytes).unwrap();
    let direct = HeightRaster::from_decoded(image::load_from_memory(&bytes)).unwrap();
    assert_eq!(decoded.width(), direct.width());
    assert_eq!(decoded.height(), direct.height());
    for y in 0..3 {
        for x in 0..2 {
            assert_eq!(decoded.sample(x, y), direct.sample(x, y));
            assert_eq!(decoded.sample(x, y), Some((5 + y * 2 + x) as u16));
        }
    }
}
