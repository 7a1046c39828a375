use std::io::Cursor;

use bevy_terrain::error::TerrainError;
use bevy_terrain::raster::HeightRaster;
use bevy_terrain::regeneration::{Regeneration, SpawnTerrain, UiSettings};
use bevy_terrain::terrain::build_terrain_mesh;
use bevy_terrain::terrain_common::{MeshStyle, TerrainImageLoadOptions, TerrainMeshResource};
use image::{ImageBuffer, ImageFormat, Luma};

fn png_luma16(width: u32, height: u32, samples: Vec<u16>) -> Vec<u8> {
    let buffer: ImageBuffer<Luma<u16>, Vec<u16>> =
        ImageBuffer::from_raw(width, height, samples).unwrap();
    let mut bytes = Cursor::new(Vec::new());
    buffer.write_to(&mut bytes, ImageFormat::Png).unwrap();
    bytes.into_inner()
}

#[test]
fn default_style_is_wireframe() {
    assert_eq!(MeshStyle::default(), MeshStyle::Wireframe);
}

#[test]
fn default_options() {
    assert_eq!(
        TerrainImageLoadOptions::default(),
        TerrainImageLoadOptions { max_image_height: 20, pixel_side_length: 1 }
    );
}

#[test]
fn default_resource_holds_two_empty_meshes() {
    let resource = TerrainMeshResource::default();
    assert!(resource.shaded.positions.is_empty());
    assert!(resource.shaded.uvs.is_empty());
    assert!(resource.shaded.indices.is_empty());
    assert_eq!(resource.shaded, resource.wireframe);
}

#[test]
fn rebuild_prepares_the_same_geometry_for_both_styles() {
    let raster = HeightRaster::from_samples(2, 3, vec![1, 2, 3, 4, 5, 6]).unwrap();
    let options = TerrainImageLoadOptions { max_image_height: 8, pixel_side_length: 3 };
    let mut resource = TerrainMeshResource::default();
    resource.rebuild(&raster, options);
    let expected = build_terrain_mesh(&raster, options);
    assert_eq!(resource.shaded, expected);
    assert_eq!(resource.wireframe, expected);
    assert_eq!(resource.shaded.positions.len(), 12);
}

#[test]
fn switching_the_style_keeps_the_geometry() {
    let raster = HeightRaster::from_samples(2, 2, vec![10, 20, 30, 40]).unwrap();
    let mut resource = TerrainMeshResource::default();
    resource.rebuild(&raster, TerrainImageLoadOptions::default());
    let shaded = resource.select(MeshStyle::Shaded);
    let wireframe = resource.select(MeshStyle::Wireframe);
    assert_eq!(shaded.positions, wireframe.positions);
    assert_eq!(shaded.uvs, wireframe.uvs);
    assert_eq!(shaded.indices, wireframe.indices);
    assert_eq!(shaded.positions.len(), 9);
}

#[test]
fn select_picks_the_mesh_of_the_style() {
    let one = HeightRaster::from_samples(1, 1, vec![5]).unwrap();
    let two = HeightRaster::from_samples(2, 1, vec![5, 6]).unwrap();
    let options = TerrainImageLoadOptions::default();
    let resource = TerrainMeshResource {
        shaded: build_terrain_mesh(&one, options),
        wireframe: build_terrain_mesh(&two, options),
    };
    assert_eq!(resource.select(MeshStyle::Shaded).positions.len(), 4);
    assert_eq!(resource.select(MeshStyle::Wireframe).positions.len(), 6);
    assert!(std::ptr::eq(resource.select(MeshStyle::Shaded), &resource.shaded));
    assert!(std::ptr::eq(resource.select(MeshStyle::Wireframe), &resource.wireframe));
}

#[test]
fn pick_takes_the_first_for_shaded_and_the_second_for_wireframe() {
    assert_eq!(*MeshStyle::Shaded.pick(&1, &2), 1);
    assert_eq!(*MeshStyle::Wireframe.pick(&1, &2), 2);
    let (shaded, wireframe) = (String::from("shaded"), String::from("wireframe"));
    assert!(std::ptr::eq(MeshStyle::Shaded.pick(&shaded, &wireframe), &shaded));
    assert!(std::ptr::eq(MeshStyle::Wireframe.pick(&shaded, &wireframe), &wireframe));
}

#[test]
fn regenerate_rebuilds_from_an_image_file() {
    let samples = vec![100, 200, 300, 400, 500, 600];
    let bytes = png_luma16(3, 2, samples.clone());
    let options = TerrainImageLoadOptions { max_image_height: 50, pixel_side_length: 2 };
    let mut resource = TerrainMeshResource::default();
    assert_eq!(resource.regenerate(&bytes, options), Ok(()));
    let raster = HeightRaster::from_samples(3, 2, samples).unwrap();
    let expected = build_terrain_mesh(&raster, options);
    assert_eq!(resource.shaded, expected);
    assert_eq!(resource.wireframe, expected);
}

#[test]
fn failed_regeneration_keeps_the_previous_meshes() {
    let raster = HeightRaster::from_samples(2, 2, vec![10, 20, 30, 40]).unwrap();
    let options = TerrainImageLoadOptions::default();
    let mut resource = TerrainMeshResource::default();
    resource.rebuild(&raster, options);
    let before = build_terrain_mesh(&raster, options);
    assert_eq!(resource.regenerate(&[], options), Err(TerrainError::DecodeError));
    assert_eq!(resource.shaded, before);
    assert_eq!(resource.wireframe, before);
    assert_eq!(
        resource.regenerate(b"no image at all", options),
        Err(TerrainError::DecodeError)
    );
    assert_eq!(resource.shaded, before);
    assert_eq!(resource.wireframe, before);
}

#[test]
fn request_names_the_kind_of_regeneration() {
    assert_eq!(SpawnTerrain { recalculate: true }.regeneration(), Regeneration::Full);
    assert_eq!(SpawnTerrain { recalculate: false }.regeneration(), Regeneration::StyleOnly);
}

#[test]
fn default_settings_generate_automatically() {
    assert_eq!(UiSettings::default(), UiSettings { auto_generate: true });
}

#[test]
fn panel_requests_with_automatic_generation() {
    let settings = UiSettings { auto_generate: true };
    assert_eq!(settings.request(false, false), None);
    assert_eq!(settings.request(true, false), Some(SpawnTerrain { recalculate: true }));
    assert_eq!(settings.request(false, true), Some(SpawnTerrain { recalculate: false }));
    assert_eq!(settings.request(true, true), Some(SpawnTerrain { recalculate: true }));
}

#[test]
fn panel_requests_without_automatic_generation() {
    let settings = UiSettings { auto_generate: false };
    assert_eq!(settings.request(false, false), None);
    assert_eq!(settings.request(true, false), None);
    assert_eq!(settings.request(false, true), Some(SpawnTerrain { recalculate: false }));
    assert_eq!(settings.request(true, true), Some(SpawnTerrain { recalculate: true }));
}
