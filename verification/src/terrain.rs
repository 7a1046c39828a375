use vstd::prelude::*;
use vstd::arithmetic::div_mod::lemma_fundamental_div_mod_converse;
use image::{DynamicImage, ImageError};
use crate::geometry::{
    cell_or_zero, corner_count, corner_height, corner_sum, index_count, lattice_width,
    lemma_triangle_index_in_range, lemma_vertex_index, terrain_mesh, triangle_index, vertex_count,
    vertex_position, vertex_uv, Fraction, MeshView, Position, Uv, SAMPLE_MAX,
};
use crate::error::TerrainError;
use crate::raster::{raster_outcome, HeightRaster, RasterView};
use crate::terrain_common::TerrainImageLoadOptions;

verus! {

/// An indexed triangle list over the lattice of cell corners.
#[derive(Debug, PartialEq, Eq)]
pub struct TerrainMesh {
    /// One position per corner, row by row.
    pub positions: Vec<Position>,
    /// One texture coordinate per corner, in the order of `positions`.
    pub uvs: Vec<Uv>,
    /// Three indices into `positions` per triangle.
    pub indices: Vec<u32>,
}

impl View for TerrainMesh {
    type V = MeshView;

    open spec fn view(&self) -> MeshView {
        MeshView { positions: self.positions@, uvs: self.uvs@, indices: self.indices@ }
    }
}

impl Default for TerrainMesh {
    /// The mesh without vertices.
    fn default() -> (r: Self)
        ensures
            r@.positions.len() == 0,
            r@.uvs.len() == 0,
            r@.indices.len() == 0,
    {
        TerrainMesh { positions: Vec::new(), uvs: Vec::new(), indices: Vec::new() }
    }
}

/// Copies a vector element by element.
fn copy_of<T: Copy>(source: &Vec<T>) -> (r: Vec<T>)
    ensures
        r@ == source@,
{
    let mut r: Vec<T> = Vec::new();
    let mut i: usize = 0;
    while i < source.len()
        invariant
            i <= source@.len(),
            r@ == source@.take(i as int),
        decreases source@.len() - i,
    {
        r.push(source[i]);
        assert(source@.take(i + 1) =~= source@.take(i as int).push(source@[i as int]));
        i = i + 1;
    }
    assert(source@.take(source@.len() as int) =~= source@);
    r
}

impl TerrainMesh {
    /// A second mesh with the same vertices and indices.
    pub fn duplicate(&self) -> (r: TerrainMesh)
        ensures
            r@ == self@,
    {
        TerrainMesh {
            positions: copy_of(&self.positions),
            uvs: copy_of(&self.uvs),
            indices: copy_of(&self.indices),
        }
    }
}

/// Adds the sample of cell `(x, y)` to a running sum and count.
fn add_cell(heightmap: &HeightRaster, x: u32, y: u32, sum: u32, count: u32) -> (r: (u32, u32))
    requires
        heightmap@.contains(x as int, y as int),
        sum <= 3 * SAMPLE_MAX,
        count <= 3,
    ensures
        r.0 == sum + cell_or_zero(heightmap@, x as int, y as int),
        r.1 == count + 1,
{
    match heightmap.sample(x, y) {
        Some(v) => (sum + v as u32, count + 1),
        None => (sum, count),
    }
}

/// Samples the normalized height of lattice corner `(cx, cy)`: the mean of the
/// up to four cells that share the corner, divided by the largest sample.
pub fn sample_vertex_height(cy: u32, cx: u32, heightmap: &HeightRaster) -> (r: Fraction)
    requires
        cx <= heightmap@.width,
        cy <= heightmap@.height,
    ensures
        r == corner_height(heightmap@, cx as int, cy as int),
        r.numer == corner_sum(heightmap@, cx as int, cy as int),
        r.denom == corner_count(heightmap@, cx as int, cy as int) * SAMPLE_MAX,
        1 <= corner_count(heightmap@, cx as int, cy as int) <= 4,
        r.numer <= r.denom,
{
    let width: u32 = heightmap.width();
    let height: u32 = heightmap.height();
    let mut sum: u32 = 0;
    let mut count: u32 = 0;
    if cy > 0 && cx > 0 {
        let (s, c) = add_cell(heightmap, cx - 1, cy - 1, sum, count);
        sum = s;
        count = c;
    }
    if cy > 0 && cx < width {
        let (s, c) = add_cell(heightmap, cx, cy - 1, sum, count);
        sum = s;
        count = c;
    }
    if cy < height && cx > 0 {
        let (s, c) = add_cell(heightmap, cx - 1, cy, sum, count);
        sum = s;
        count = c;
    }
    if cy < height && cx < width {
        let (s, c) = add_cell(heightmap, cx, cy, sum, count);
        sum = s;
        count = c;
    }
    Fraction { numer: sum as u64, denom: count as u64 * SAMPLE_MAX as u64 }
}

/// Builds the mesh of a raster: one vertex per lattice corner in row-major
/// order, and two triangles per cell.
pub fn build_terrain_mesh(heightmap: &HeightRaster, options: TerrainImageLoadOptions) -> (mesh:
    TerrainMesh)
    ensures
        mesh@ == terrain_mesh(heightmap@, options),
        mesh@.positions.len() == vertex_count(heightmap@),
        mesh@.uvs.len() == vertex_count(heightmap@),
        mesh@.indices.len() == index_count(heightmap@),
        forall|k: int|
            0 <= k < mesh@.indices.len() ==> 0 <= #[trigger] mesh@.indices[k] < vertex_count(
                heightmap@,
            ),
{
    let width: u32 = heightmap.width();
    let height: u32 = heightmap.height();
    let ghost raster = heightmap@;
    let ghost row = lattice_width(raster);
    proof {
        assert(width < u32::MAX && height < u32::MAX) by (nonlinear_arith)
            requires
                1 <= width,
                1 <= height,
                (width + 1) * (height + 1) <= u32::MAX,
        ;
    }
    let mut positions: Vec<Position> = Vec::new();
    let mut uvs: Vec<Uv> = Vec::new();
    let mut cy: u32 = 0;
    while cy <= height
        invariant
            raster == heightmap@,
            raster.wf(),
            row == lattice_width(raster),
            width == raster.width,
            height == raster.height,
            height < u32::MAX,
            width < u32::MAX,
            cy <= height + 1,
            positions@.len() == cy * row,
            uvs@.len() == cy * row,
            forall|i: int|
                0 <= i < positions@.len() ==> #[trigger] positions@[i] == vertex_position(
                    raster,
                    options,
                    i % row,
                    i / row,
                ),
            forall|i: int|
                0 <= i < uvs@.len() ==> #[trigger] uvs@[i] == vertex_uv(raster, i % row, i / row),
        decreases height + 1 - cy,
    {
        let mut cx: u32 = 0;
        while cx <= width
            invariant
                raster == heightmap@,
                raster.wf(),
                row == lattice_width(raster),
                width == raster.width,
                height == raster.height,
                width < u32::MAX,
                cy <= height,
                cx <= width + 1,
                positions@.len() == cy * row + cx,
                uvs@.len() == cy * row + cx,
                forall|i: int|
                    0 <= i < positions@.len() ==> #[trigger] positions@[i] == vertex_position(
                        raster,
                        options,
                        i % row,
                        i / row,
                    ),
                forall|i: int|
                    0 <= i < uvs@.len() ==> #[trigger] uvs@[i] == vertex_uv(
                        raster,
                        i % row,
                        i / row,
                    ),
            decreases width + 1 - cx,
        {
            let h = sample_vertex_height(cy, cx, heightmap);
            proof {
                lemma_vertex_index(raster, cx as int, cy as int);
                assert(cx * options.pixel_side_length <= u64::MAX && cy * options.pixel_side_length
                    <= u64::MAX && h.numer * options.max_image_height <= u64::MAX)
                    by (nonlinear_arith)
                    requires
                        cx <= u32::MAX,
                        cy <= u32::MAX,
                        options.pixel_side_length <= u32::MAX,
                        options.max_image_height <= u32::MAX,
                        h.numer <= 4 * 65535,
                ;
            }
            positions.push(
                Position {
                    x: cx as u64 * options.pixel_side_length as u64,
                    y: Fraction {
                        numer: h.numer * options.max_image_height as u64,
                        denom: h.denom,
                    },
                    z: cy as u64 * options.pixel_side_length as u64,
                },
            );
            uvs.push(
                Uv {
                    u: Fraction { numer: cx as u64, denom: width as u64 },
                    v: Fraction { numer: cy as u64, denom: height as u64 },
                },
            );
            cx = cx + 1;
        }
        proof {
            assert((cy + 1) * row == cy * row + row) by (nonlinear_arith);
        }
        cy = cy + 1;
    }
    proof {
        assert((height + 1) * row == vertex_count(raster)) by (nonlinear_arith)
            requires
                row == raster.width + 1,
                height == raster.height,
                vertex_count(raster) == (raster.width + 1) * (raster.height + 1),
        ;
    }
    let indices = build_indices(width, height, Ghost(raster));
    let mesh = TerrainMesh { positions, uvs, indices };
    proof {
        assert(mesh@.positions =~= terrain_mesh(raster, options).positions);
        assert(mesh@.uvs =~= terrain_mesh(raster, options).uvs);
        assert(mesh@.indices =~= terrain_mesh(raster, options).indices);
        assert forall|k: int| 0 <= k < mesh@.indices.len() implies 0 <= #[trigger] mesh@.indices[k]
            < vertex_count(raster) by {
            lemma_triangle_index_in_range(raster, k);
        }
    }
    mesh
}

/// Emits the index buffer of a `width` by `height` raster.
fn build_indices(width: u32, height: u32, Ghost(raster): Ghost<RasterView>) -> (indices: Vec<u32>)
    requires
        raster.wf(),
        width == raster.width,
        height == raster.height,
    ensures
        indices@.len() == index_count(raster),
        forall|k: int|
            0 <= k < indices@.len() ==> #[trigger] indices@[k] == triangle_index(raster, k),
{
    proof {
        assert(width < u32::MAX) by (nonlinear_arith)
            requires
                1 <= height,
                (width + 1) * (height + 1) <= u32::MAX,
        ;
    }
    let grid_width: u32 = width + 1;
    let mut indices: Vec<u32> = Vec::new();
    let mut cy: u32 = 0;
    while cy < height
        invariant
            raster.wf(),
            width == raster.width,
            height == raster.height,
            grid_width == width + 1,
            cy <= height,
            indices@.len() == 6 * (cy * width),
            forall|k: int|
                0 <= k < indices@.len() ==> #[trigger] indices@[k] == triangle_index(raster, k),
        decreases height - cy,
    {
        let mut cx: u32 = 0;
        while cx < width
            invariant
                raster.wf(),
                width == raster.width,
                height == raster.height,
                grid_width == width + 1,
                cy < height,
                cx <= width,
                indices@.len() == 6 * (cy * width + cx),
                forall|k: int|
                    0 <= k < indices@.len() ==> #[trigger] indices@[k] == triangle_index(
                        raster,
                        k,
                    ),
            decreases width - cx,
        {
            proof {
                lemma_vertex_index(raster, cx as int, cy as int);
                lemma_vertex_index(raster, cx + 1, cy as int);
                lemma_vertex_index(raster, cx as int, cy + 1);
                lemma_vertex_index(raster, cx + 1, cy + 1);
                lemma_fundamental_div_mod_converse(
                    cy * width + cx,
                    width as int,
                    cy as int,
                    cx as int,
                );
                assert((cy + 1) * grid_width == cy * grid_width + grid_width) by (nonlinear_arith);
            }
            let a: u32 = cy * grid_width + cx;
            let b: u32 = a + 1;
            let c: u32 = (cy + 1) * grid_width + cx;
            let d: u32 = c + 1;
            let ghost base = indices@.len() as int;
            indices.push(a);
            indices.push(d);
            indices.push(b);
            indices.push(a);
            indices.push(c);
            indices.push(d);
            proof {
                assert forall|k: int| base <= k < base + 6 implies #[trigger] indices@[k]
                    == triangle_index(raster, k) by {
                    assert(k / 6 == cy * width + cx);
                }
            }
            cx = cx + 1;
        }
        proof {
            assert((cy + 1) * width == cy * width + width) by (nonlinear_arith);
        }
        cy = cy + 1;
    }
    proof {
        assert(height * width == raster.width * raster.height) by (nonlinear_arith)
            requires
                width == raster.width,
                height == raster.height,
        ;
    }
    indices
}

/// What becomes of the decoder's outcome under `options`: the mesh of the
/// raster where there is one, else the raster's error.
pub open spec fn mesh_outcome(
    decoded: Result<DynamicImage, ImageError>,
    options: TerrainImageLoadOptions,
) -> Result<MeshView, TerrainError> {
    match raster_outcome(decoded) {
        Ok(raster) => Ok(terrain_mesh(raster, options)),
        Err(e) => Err(e),
    }
}

/// Whether `r` is what `outcome` asks for: a mesh with this content, or this
/// error.
pub open spec fn is_mesh_outcome(
    r: Result<TerrainMesh, TerrainError>,
    outcome: Result<MeshView, TerrainError>,
) -> bool {
    match outcome {
        Ok(mesh) => r is Ok && r->Ok_0@ == mesh,
        Err(e) => r == Err::<TerrainMesh, TerrainError>(e),
    }
}

/// Decodes an image file held in memory and builds its mesh.
///
/// The bytes go to the decoder as they are. Where the decoder gives a valid
/// raster, the result is that raster's mesh under `options`; else it is the
/// error of `HeightRaster::from_decoded`.
pub fn load_terrain_bitmap(bytes: &[u8], options: TerrainImageLoadOptions) -> (r: Result<
    TerrainMesh,
    TerrainError,
>)
    ensures
        exists|decoded: Result<DynamicImage, ImageError>|
            is_mesh_outcome(r, #[trigger] mesh_outcome(decoded, options)),
        r matches Ok(mesh) ==> exists|raster: RasterView|
            raster.wf() && mesh@ == #[trigger] terrain_mesh(raster, options),
{
    let decoded = HeightRaster::decode(bytes);
    let ghost witness = choose|outcome: Result<DynamicImage, ImageError>|
        HeightRaster::is_outcome(decoded, #[trigger] raster_outcome(outcome));
    let r = match decoded {
        Ok(heightmap) => Ok(build_terrain_mesh(&heightmap, options)),
        Err(e) => Err(e),
    };
    proof {
        assert(is_mesh_outcome(r, mesh_outcome(witness, options)));
    }
    r
}

/// Builds the mesh of an image file with a maximum height and a side length
/// of one unit each.
pub fn terrain_example(bytes: &[u8]) -> (r: Result<TerrainMesh, TerrainError>)
    ensures
        exists|decoded: Result<DynamicImage, ImageError>|
            is_mesh_outcome(
                r,
                #[trigger] mesh_outcome(
                    decoded,
                    TerrainImageLoadOptions { max_image_height: 1, pixel_side_length: 1 },
                ),
            ),
        r matches Ok(mesh) ==> exists|raster: RasterView|
            raster.wf() && mesh@ == #[trigger] terrain_mesh(
                raster,
                TerrainImageLoadOptions { max_image_height: 1, pixel_side_length: 1 },
            ),
{
    let options = TerrainImageLoadOptions { max_image_height: 1, pixel_side_length: 1 };
    load_terrain_bitmap(bytes, options)
}

} // verus!
