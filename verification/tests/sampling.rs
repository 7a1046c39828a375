use bevy_terrain::geometry::Fraction;
use bevy_terrain::raster::HeightRaster;
use bevy_terrain::terrain::sample_vertex_height;

fn raster_3x3() -> HeightRaster {
    HeightRaster::from_samples(3, 3, vec![10, 20, 30, 40, 50, 60, 70, 80, 90]).unwrap()
}

#[test]
fn interior_corner_is_the_mean_of_four_cells() {
    let raster = raster_3x3();
    assert_eq!(
        sample_vertex_height(1, 1, &raster),
        Fraction { numer: 10 + 20 + 40 + 50, denom: 4 * 65535 }
    );
    assert_eq!(
        sample_vertex_height(1, 2, &raster),
        Fraction { numer: 20 + 30 + 50 + 60, denom: 4 * 65535 }
    );
    assert_eq!(
        sample_vertex_height(2, 1, &raster),
        Fraction { numer: 40 + 50 + 70 + 80, denom: 4 * 65535 }
    );
    assert_eq!(
        sample_vertex_height(2, 2, &raster),
        Fraction { numer: 50 + 60 + 80 + 90, denom: 4 * 65535 }
    );
}

#[test]
fn raster_corner_is_one_cell() {
    let raster = raster_3x3();
    assert_eq!(sample_vertex_height(0, 0, &raster), Fraction { numer: 10, denom: 65535 });
    assert_eq!(sample_vertex_height(0, 3, &raster), Fraction { numer: 30, denom: 65535 });
    assert_eq!(sample_vertex_height(3, 0, &raster), Fraction { numer: 70, denom: 65535 });
    assert_eq!(sample_vertex_height(3, 3, &raster), Fraction { numer: 90, denom: 65535 });
}

#[test]
fn edge_corner_is_the_mean_of_two_cells() {
    let raster = raster_3x3();
    assert_eq!(sample_vertex_height(0, 1, &raster), Fraction { numer: 10 + 20, denom: 2 * 65535 });
    assert_eq!(sample_vertex_height(0, 2, &raster), Fraction { numer: 20 + 30, denom: 2 * 65535 });
    assert_eq!(sample_vertex_height(1, 0, &raster), Fraction { numer: 10 + 40, denom: 2 * 65535 });
    assert_eq!(sample_vertex_height(2, 3, &raster), Fraction { numer: 60 + 90, denom: 2 * 65535 });
    assert_eq!(sample_vertex_height(3, 1, &raster), Fraction { numer: 70 + 80, denom: 2 * 65535 });
}

#[test]
fn row_and_column_are_not_exchanged() {
    let raster = HeightRaster::from_samples(3, 1, vec![100, 200, 300]).unwrap();
    assert_eq!(sample_vertex_height(0, 2, &raster), Fraction { numer: 500, denom: 2 * 65535 });
    assert_eq!(sample_vertex_height(1, 3, &raster), Fraction { numer: 300, denom: 65535 });
    let raster = HeightRaster::from_samples(1, 3, vec![100, 200, 300]).unwrap();
    assert_eq!(sample_vertex_height(2, 0, &raster), Fraction { numer: 500, denom: 2 * 65535 });
    assert_eq!(sample_vertex_height(3, 1, &raster), Fraction { numer: 300, denom: 65535 });
}

#[test]
fn single_cell_gives_its_sample_at_every_corner() {
    let raster = HeightRaster::from_samples(1, 1, vec![1234]).unwrap();
    for cy in 0..=1 {
        for cx in 0..=1 {
            assert_eq!(
                sample_vertex_height(cy, cx, &raster),
                Fraction { numer: 1234, denom: 65535 }
            );
        }
    }
}

#[test]
fn full_scale_samples_give_height_one() {
    let raster = HeightRaster::from_samples(2, 2, vec![65535; 4]).unwrap();
    for cy in 0..=2 {
        for cx in 0..=2 {
            let h = sample_vertex_height(cy, cx, &raster);
            assert_eq!(h.numer, h.denom);
            assert!(h.denom > 0);
        }
    }
    assert_eq!(
        sample_vertex_height(1, 1, &raster),
        Fraction { numer: 4 * 65535, denom: 4 * 65535 }
    );
}

#[test]
fn height_lies_between_zero_and_one() {
    let raster = raster_3x3();
    for cy in 0..=3 {
        for cx in 0..=3 {
            let h = sample_vertex_height(cy, cx, &raster);
            assert!(h.denom > 0);
            assert!(h.numer <= h.denom);
        }
    }
    let zero = HeightRaster::from_samples(2, 2, vec![0; 4]).unwrap();
    assert_eq!(sample_vertex_height(1, 1, &zero), Fraction { numer: 0, denom: 4 * 65535 });
}
