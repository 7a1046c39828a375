use vstd::prelude::*;
use vstd::arithmetic::div_mod::lemma_fundamental_div_mod_converse;
use crate::raster::RasterView;
use crate::terrain_common::TerrainImageLoadOptions;

verus! {

/// The largest value of a sample.
pub const SAMPLE_MAX: u32 = 65535;

/// The exact rational `numer / denom`.
#[derive(Clone, Copy, Debug, PartialEq, Eq, Structural)]
pub struct Fraction {
    pub numer: u64,
    pub denom: u64,
}

/// World position of a vertex. `x` and `z` run along the raster's columns and
/// rows; `y` is the height.
#[derive(Clone, Copy, Debug, PartialEq, Eq, Structural)]
pub struct Position {
    pub x: u64,
    pub y: Fraction,
    pub z: u64,
}

/// Texture coordinates of a vertex, each between zero and one.
#[derive(Clone, Copy, Debug, PartialEq, Eq, Structural)]
pub struct Uv {
    pub u: Fraction,
    pub v: Fraction,
}

/// The mathematical content of a mesh.
pub struct MeshView {
    pub positions: Seq<Position>,
    pub uvs: Seq<Uv>,
    pub indices: Seq<u32>,
}

/// The sample of cell `(x, y)`, or zero where the raster has no such cell.
pub open spec fn cell_or_zero(raster: RasterView, x: int, y: int) -> nat {
    if raster.contains(x, y) {
        raster.cell(x, y) as nat
    } else {
        0
    }
}

/// One where the raster has a cell `(x, y)`, zero elsewhere.
pub open spec fn cell_present(raster: RasterView, x: int, y: int) -> nat {
    if raster.contains(x, y) {
        1
    } else {
        0
    }
}

/// Sum of the samples of the cells that share corner `(cx, cy)`: the cells
/// `(cx - 1, cy - 1)`, `(cx, cy - 1)`, `(cx - 1, cy)` and `(cx, cy)`, as far as
/// the raster has them.
pub open spec fn corner_sum(raster: RasterView, cx: int, cy: int) -> nat {
    cell_or_zero(raster, cx - 1, cy - 1) + cell_or_zero(raster, cx, cy - 1) + cell_or_zero(
        raster,
        cx - 1,
        cy,
    ) + cell_or_zero(raster, cx, cy)
}

/// Number of cells of the raster that share corner `(cx, cy)`.
pub open spec fn corner_count(raster: RasterView, cx: int, cy: int) -> nat {
    cell_present(raster, cx - 1, cy - 1) + cell_present(raster, cx, cy - 1) + cell_present(
        raster,
        cx - 1,
        cy,
    ) + cell_present(raster, cx, cy)
}

/// Normalized height of corner `(cx, cy)`: the mean of the samples around it,
/// as a fraction of the largest sample.
pub open spec fn corner_height(raster: RasterView, cx: int, cy: int) -> Fraction {
    Fraction {
        numer: corner_sum(raster, cx, cy) as u64,
        denom: (corner_count(raster, cx, cy) * SAMPLE_MAX) as u64,
    }
}

/// Number of corners of the lattice: one more per row and per column than
/// the raster has cells.
pub open spec fn vertex_count(raster: RasterView) -> nat {
    (raster.width + 1) * (raster.height + 1)
}

/// Number of indices: two triangles of three indices per cell.
pub open spec fn index_count(raster: RasterView) -> nat {
    6 * (raster.width * raster.height)
}

/// Number of corners in a row of the lattice.
pub open spec fn lattice_width(raster: RasterView) -> int {
    raster.width as int + 1
}

/// Index of corner `(cx, cy)` in row-major order.
pub open spec fn vertex_index(raster: RasterView, cx: int, cy: int) -> int {
    cy * lattice_width(raster) + cx
}

/// World position of corner `(cx, cy)`: the corner's coordinates scaled by
/// the side length, and its normalized height scaled by the maximum height.
pub open spec fn vertex_position(
    raster: RasterView,
    options: TerrainImageLoadOptions,
    cx: int,
    cy: int,
) -> Position {
    Position {
        x: (cx * options.pixel_side_length) as u64,
        y: Fraction {
            numer: (corner_sum(raster, cx, cy) * options.max_image_height) as u64,
            denom: (corner_count(raster, cx, cy) * SAMPLE_MAX) as u64,
        },
        z: (cy * options.pixel_side_length) as u64,
    }
}

/// Texture coordinates of corner `(cx, cy)`: its coordinates as fractions of
/// the raster's sides.
pub open spec fn vertex_uv(raster: RasterView, cx: int, cy: int) -> Uv {
    Uv {
        u: Fraction { numer: cx as u64, denom: raster.width as u64 },
        v: Fraction { numer: cy as u64, denom: raster.height as u64 },
    }
}

/// The six indices of cell `(cx, cy)`. With `a`, `b` the corners above the
/// cell and `c`, `d` those below it, left to right, the cell is split along
/// `a`-`d` into the triangles `(a, d, b)` and `(a, c, d)`.
pub open spec fn cell_triangles(raster: RasterView, cx: int, cy: int) -> Seq<int> {
    let a = vertex_index(raster, cx, cy);
    let b = vertex_index(raster, cx + 1, cy);
    let c = vertex_index(raster, cx, cy + 1);
    let d = vertex_index(raster, cx + 1, cy + 1);
    seq![a, d, b, a, c, d]
}

/// The `k`-th entry of the index buffer: cells are taken row by row, six
/// indices each.
pub open spec fn triangle_index(raster: RasterView, k: int) -> int {
    let cell = k / 6;
    cell_triangles(raster, cell % (raster.width as int), cell / (raster.width as int))[k % 6]
}

/// The mesh of a raster under given load options.
pub open spec fn terrain_mesh(raster: RasterView, options: TerrainImageLoadOptions) -> MeshView {
    let row = lattice_width(raster);
    MeshView {
        positions: Seq::new(
            vertex_count(raster),
            |i: int| vertex_position(raster, options, i % row, i / row),
        ),
        uvs: Seq::new(vertex_count(raster), |i: int| vertex_uv(raster, i % row, i / row)),
        indices: Seq::new(index_count(raster), |k: int| triangle_index(raster, k) as u32),
    }
}

/// A corner's row-major index lies within the lattice and determines the
/// corner.
pub proof fn lemma_vertex_index(raster: RasterView, cx: int, cy: int)
    requires
        raster.wf(),
        0 <= cx <= raster.width,
        0 <= cy <= raster.height,
    ensures
        0 <= vertex_index(raster, cx, cy) < vertex_count(raster),
        vertex_index(raster, cx, cy) % lattice_width(raster) == cx,
        vertex_index(raster, cx, cy) / lattice_width(raster) == cy,
{
    let row = lattice_width(raster);
    assert(0 <= cy * row && cy * row + row <= (raster.height + 1) * row) by (nonlinear_arith)
        requires
            0 <= cy <= raster.height,
            row >= 1,
    ;
    assert((raster.height + 1) * row == vertex_count(raster)) by (nonlinear_arith)
        requires
            row == raster.width + 1,
            vertex_count(raster) == (raster.width + 1) * (raster.height + 1),
    ;
    lemma_fundamental_div_mod_converse(vertex_index(raster, cx, cy), row, cy, cx);
}

/// Every index below the number of vertices is the index of one corner of
/// the lattice.
pub proof fn lemma_lattice_corner(raster: RasterView, i: int)
    requires
        raster.wf(),
        0 <= i < vertex_count(raster),
    ensures
        0 <= i % lattice_width(raster) <= raster.width,
        0 <= i / lattice_width(raster) <= raster.height,
        vertex_index(raster, i % lattice_width(raster), i / lattice_width(raster)) == i,
{
    let row = lattice_width(raster);
    assert(0 <= i % row < row && 0 <= i / row < raster.height + 1 && (i / row) * row + i % row
        == i) by (nonlinear_arith)
        requires
            0 <= i < row * (raster.height + 1),
            row >= 1,
    ;
}

/// Every index of the buffer names a corner of the lattice.
pub proof fn lemma_triangle_index_in_range(raster: RasterView, k: int)
    requires
        raster.wf(),
        0 <= k < index_count(raster),
    ensures
        0 <= triangle_index(raster, k) < vertex_count(raster),
{
    let w = raster.width as int;
    let cell = k / 6;
    let cx = cell % w;
    let cy = cell / w;
    assert(0 <= cx < w && 0 <= cy < raster.height) by (nonlinear_arith)
        requires
            0 <= cell < w * raster.height,
            w >= 1,
            cx == cell % w,
            cy == cell / w,
    ;
    lemma_vertex_index(raster, cx, cy);
    lemma_vertex_index(raster, cx + 1, cy);
    lemma_vertex_index(raster, cx, cy + 1);
    lemma_vertex_index(raster, cx + 1, cy + 1);
}

/// Twice the signed area of the triangle of the vertices `a`, `b`, `c`, taken
/// in this order, measured in cells: each vertex stands at its column and
/// row of the lattice.
pub open spec fn signed_area(raster: RasterView, a: int, b: int, c: int) -> int {
    let row = lattice_width(raster);
    (b % row - a % row) * (c / row - a / row) - (b / row - a / row) * (c % row - a % row)
}

/// The two triangles of a cell are wound the same way, and each covers half
/// of the cell.
pub proof fn lemma_consistent_winding(raster: RasterView, cx: int, cy: int)
    requires
        raster.wf(),
        0 <= cx < raster.width,
        0 <= cy < raster.height,
    ensures
        signed_area(
            raster,
            cell_triangles(raster, cx, cy)[0],
            cell_triangles(raster, cx, cy)[1],
            cell_triangles(raster, cx, cy)[2],
        ) == -1,
        signed_area(
            raster,
            cell_triangles(raster, cx, cy)[3],
            cell_triangles(raster, cx, cy)[4],
            cell_triangles(raster, cx, cy)[5],
        ) == -1,
{
    lemma_vertex_index(raster, cx, cy);
    lemma_vertex_index(raster, cx + 1, cy);
    lemma_vertex_index(raster, cx, cy + 1);
    lemma_vertex_index(raster, cx + 1, cy + 1);
    let t = cell_triangles(raster, cx, cy);
    let row = lattice_width(raster);
    assert(t[0] % row == cx && t[0] / row == cy);
    assert(t[1] % row == cx + 1 && t[1] / row == cy + 1);
    assert(t[2] % row == cx + 1 && t[2] / row == cy);
    assert(t[4] % row == cx && t[4] / row == cy + 1);
    assert(signed_area(raster, t[0], t[1], t[2]) == -1) by (nonlinear_arith)
        requires
            signed_area(raster, t[0], t[1], t[2]) == (cx + 1 - cx) * (cy - cy) - (cy + 1 - cy) * (cx
                + 1 - cx),
    ;
    assert(signed_area(raster, t[3], t[4], t[5]) == -1) by (nonlinear_arith)
        requires
            signed_area(raster, t[3], t[4], t[5]) == (cx - cx) * (cy + 1 - cy) - (cy + 1 - cy) * (cx
                + 1 - cx),
    ;
}

/// A mesh has one position and one texture coordinate per corner of the
/// lattice and six indices per cell, and every index names a vertex.
pub proof fn lemma_mesh_counts(raster: RasterView, options: TerrainImageLoadOptions)
    requires
        raster.wf(),
    ensures
        terrain_mesh(raster, options).positions.len() == (raster.width + 1) * (raster.height + 1),
        terrain_mesh(raster, options).uvs.len() == (raster.width + 1) * (raster.height + 1),
        terrain_mesh(raster, options).indices.len() == 6 * raster.width * raster.height,
        forall|k: int|
            0 <= k < terrain_mesh(raster, options).indices.len() ==> 0 <= #[trigger] terrain_mesh(
                raster,
                options,
            ).indices[k] < terrain_mesh(raster, options).positions.len(),
{
    assert(6 * (raster.width * raster.height) == 6 * raster.width * raster.height)
        by (nonlinear_arith);
    assert forall|k: int| 0 <= k < terrain_mesh(raster, options).indices.len() implies 0
        <= #[trigger] terrain_mesh(raster, options).indices[k] < terrain_mesh(
        raster,
        options,
    ).positions.len() by {
        lemma_triangle_index_in_range(raster, k);
    }
}

/// The number of cells around a corner of the lattice is the number of
/// columns it touches times the number of rows it touches: one, two or four,
/// never zero.
pub proof fn lemma_corner_count(raster: RasterView, cx: int, cy: int)
    requires
        raster.wf(),
        0 <= cx <= raster.width,
        0 <= cy <= raster.height,
    ensures
        corner_count(raster, cx, cy) == (if 0 < cx < raster.width {
            2nat
        } else {
            1nat
        }) * (if 0 < cy < raster.height {
            2nat
        } else {
            1nat
        }),
        corner_sum(raster, cx, cy) <= corner_count(raster, cx, cy) * SAMPLE_MAX,
{
}

/// At a corner that lies on no edge of the raster, the normalized height is
/// the mean of the four cells around it, over the largest sample.
pub proof fn lemma_interior_corner_height(raster: RasterView, cx: int, cy: int)
    requires
        raster.wf(),
        0 < cx < raster.width,
        0 < cy < raster.height,
    ensures
        corner_height(raster, cx, cy).numer == raster.cell(cx - 1, cy - 1) + raster.cell(
            cx,
            cy - 1,
        ) + raster.cell(cx - 1, cy) + raster.cell(cx, cy),
        corner_height(raster, cx, cy).denom == 4 * SAMPLE_MAX,
{
}

/// At each of the raster's four outer corners, the normalized height is the
/// sample of the one cell that touches it, over the largest sample.
pub proof fn lemma_raster_corner_height(raster: RasterView)
    requires
        raster.wf(),
    ensures
        corner_height(raster, 0, 0) == (Fraction {
            numer: raster.cell(0, 0) as u64,
            denom: SAMPLE_MAX as u64,
        }),
        corner_height(raster, raster.width as int, 0) == (Fraction {
            numer: raster.cell(raster.width - 1, 0) as u64,
            denom: SAMPLE_MAX as u64,
        }),
        corner_height(raster, 0, raster.height as int) == (Fraction {
            numer: raster.cell(0, raster.height - 1) as u64,
            denom: SAMPLE_MAX as u64,
        }),
        corner_height(raster, raster.width as int, raster.height as int) == (Fraction {
            numer: raster.cell(raster.width - 1, raster.height - 1) as u64,
            denom: SAMPLE_MAX as u64,
        }),
{
}

/// The coordinates of a vertex are computed without wrapping: they are the
/// exact products, and the height lies between zero and the maximum height.
pub proof fn lemma_vertex_position_exact(
    raster: RasterView,
    options: TerrainImageLoadOptions,
    cx: int,
    cy: int,
)
    requires
        raster.wf(),
        0 <= cx <= raster.width,
        0 <= cy <= raster.height,
    ensures
        vertex_position(raster, options, cx, cy).x == cx * options.pixel_side_length,
        vertex_position(raster, options, cx, cy).z == cy * options.pixel_side_length,
        vertex_position(raster, options, cx, cy).y.numer == corner_sum(raster, cx, cy)
            * options.max_image_height,
        vertex_position(raster, options, cx, cy).y.denom == corner_count(raster, cx, cy)
            * SAMPLE_MAX,
        vertex_position(raster, options, cx, cy).y.denom > 0,
        vertex_position(raster, options, cx, cy).y.numer <= options.max_image_height
            * vertex_position(raster, options, cx, cy).y.denom,
{
    lemma_corner_count(raster, cx, cy);
    let sum = corner_sum(raster, cx, cy) as int;
    let bound = corner_count(raster, cx, cy) * SAMPLE_MAX;
    let side = options.pixel_side_length as int;
    let top = options.max_image_height as int;
    assert(raster.width < u32::MAX && raster.height < u32::MAX) by (nonlinear_arith)
        requires
            raster.wf(),
    ;
    assert(0 <= cx * side <= u64::MAX && 0 <= cy * side <= u64::MAX) by (nonlinear_arith)
        requires
            0 <= cx <= u32::MAX,
            0 <= cy <= u32::MAX,
            0 <= side <= u32::MAX,
    ;
    assert(0 <= sum * top <= top * bound && top * bound <= u64::MAX) by (nonlinear_arith)
        requires
            0 <= sum <= bound,
            bound <= 4 * 65535,
            0 <= top <= u32::MAX,
    ;
}

/// Both texture coordinates of a vertex lie between zero and one.
pub proof fn lemma_vertex_uv_in_unit_square(raster: RasterView, cx: int, cy: int)
    requires
        raster.wf(),
        0 <= cx <= raster.width,
        0 <= cy <= raster.height,
    ensures
        vertex_uv(raster, cx, cy).u.numer == cx,
        vertex_uv(raster, cx, cy).u.denom == raster.width,
        vertex_uv(raster, cx, cy).v.numer == cy,
        vertex_uv(raster, cx, cy).v.denom == raster.height,
        vertex_uv(raster, cx, cy).u.numer <= vertex_uv(raster, cx, cy).u.denom,
        vertex_uv(raster, cx, cy).v.numer <= vertex_uv(raster, cx, cy).v.denom,
        vertex_uv(raster, cx, cy).u.denom > 0,
        vertex_uv(raster, cx, cy).v.denom > 0,
{
    assert(raster.width < u32::MAX && raster.height < u32::MAX) by (nonlinear_arith)
        requires
            raster.wf(),
    ;
}

/// The vertex of corner `(cx, cy)` stands at index `cy * (width + 1) + cx`.
pub proof fn lemma_mesh_vertex(
    raster: RasterView,
    options: TerrainImageLoadOptions,
    cx: int,
    cy: int,
)
    requires
        raster.wf(),
        0 <= cx <= raster.width,
        0 <= cy <= raster.height,
    ensures
        0 <= vertex_index(raster, cx, cy) < vertex_count(raster),
        terrain_mesh(raster, options).positions[vertex_index(raster, cx, cy)] == vertex_position(
            raster,
            options,
            cx,
            cy,
        ),
        terrain_mesh(raster, options).uvs[vertex_index(raster, cx, cy)] == vertex_uv(
            raster,
            cx,
            cy,
        ),
{
    lemma_vertex_index(raster, cx, cy);
}

/// The six indices of cell `(cx, cy)` stand at `6 * (cy * width + cx)` and
/// the five places after it.
pub proof fn lemma_mesh_cell(raster: RasterView, options: TerrainImageLoadOptions, cx: int, cy: int, j: int)
    requires
        raster.wf(),
        0 <= cx < raster.width,
        0 <= cy < raster.height,
        0 <= j < 6,
    ensures
        0 <= 6 * (cy * raster.width + cx) + j < index_count(raster),
        terrain_mesh(raster, options).indices[6 * (cy * raster.width + cx) + j] == cell_triangles(
            raster,
            cx,
            cy,
        )[j],
{
    let w = raster.width as int;
    let cell = cy * w + cx;
    assert(0 <= cell && cell + 1 <= w * raster.height) by (nonlinear_arith)
        requires
            cell == cy * w + cx,
            0 <= cx < w,
            0 <= cy < raster.height,
    ;
    lemma_fundamental_div_mod_converse(cell, w, cy, cx);
    let k = 6 * cell + j;
    assert(k / 6 == cell && k % 6 == j);
    lemma_triangle_index_in_range(raster, k);
    assert(vertex_count(raster) <= u32::MAX);
}

/// Multiplying the maximum height by `k` multiplies the height of every
/// vertex by `k`, and leaves its other two coordinates, the texture
/// coordinates and the indices as they were.
pub proof fn lemma_max_height_scales_heights(
    raster: RasterView,
    options: TerrainImageLoadOptions,
    k: u32,
    i: int,
)
    requires
        raster.wf(),
        k * options.max_image_height <= u32::MAX,
        0 <= i < vertex_count(raster),
    ensures
        ({
            let scaled = TerrainImageLoadOptions {
                max_image_height: (k * options.max_image_height) as u32,
                pixel_side_length: options.pixel_side_length,
            };
            let before = terrain_mesh(raster, options);
            let after = terrain_mesh(raster, scaled);
            &&& after.positions[i].y.numer == k * before.positions[i].y.numer
            &&& after.positions[i].y.denom == before.positions[i].y.denom
            &&& after.positions[i].x == before.positions[i].x
            &&& after.positions[i].z == before.positions[i].z
            &&& after.uvs == before.uvs
            &&& after.indices == before.indices
        }),
{
    let scaled = TerrainImageLoadOptions {
        max_image_height: (k * options.max_image_height) as u32,
        pixel_side_length: options.pixel_side_length,
    };
    let row = lattice_width(raster);
    let cx = i % row;
    let cy = i / row;
    lemma_lattice_corner(raster, i);
    lemma_vertex_position_exact(raster, options, cx, cy);
    lemma_vertex_position_exact(raster, scaled, cx, cy);
    let sum = corner_sum(raster, cx, cy) as int;
    let top = options.max_image_height as int;
    assert(sum * (k * top) == k * (sum * top)) by (nonlinear_arith);
}

/// Multiplying the side length by `k` multiplies the two horizontal
/// coordinates of every vertex by `k`, and leaves its height, the texture
/// coordinates and the indices as they were.
pub proof fn lemma_side_length_scales_horizontals(
    raster: RasterView,
    options: TerrainImageLoadOptions,
    k: u32,
    i: int,
)
    requires
        raster.wf(),
        k * options.pixel_side_length <= u32::MAX,
        0 <= i < vertex_count(raster),
    ensures
        ({
            let scaled = TerrainImageLoadOptions {
                max_image_height: options.max_image_height,
                pixel_side_length: (k * options.pixel_side_length) as u32,
            };
            let before = terrain_mesh(raster, options);
            let after = terrain_mesh(raster, scaled);
            &&& after.positions[i].x == k * before.positions[i].x
            &&& after.positions[i].z == k * before.positions[i].z
            &&& after.positions[i].y == before.positions[i].y
            &&& after.uvs == before.uvs
            &&& after.indices == before.indices
        }),
{
    let scaled = TerrainImageLoadOptions {
        max_image_height: options.max_image_height,
        pixel_side_length: (k * options.pixel_side_length) as u32,
    };
    let row = lattice_width(raster);
    let cx = i % row;
    let cy = i / row;
    lemma_lattice_corner(raster, i);
    lemma_vertex_position_exact(raster, options, cx, cy);
    lemma_vertex_position_exact(raster, scaled, cx, cy);
    let side = options.pixel_side_length as int;
    assert(cx * (k * side) == k * (cx * side) && cy * (k * side) == k * (cy * side))
        by (nonlinear_arith);
}

/// Heights are proportional to the maximum height: between two sets of load
/// options with the same side length, the heights of every vertex stand in
/// the ratio of the two maximum heights, and nothing else differs.
pub proof fn lemma_heights_proportional_to_max_height(
    raster: RasterView,
    a: TerrainImageLoadOptions,
    b: TerrainImageLoadOptions,
    i: int,
)
    requires
        raster.wf(),
        a.pixel_side_length == b.pixel_side_length,
        0 <= i < vertex_count(raster),
    ensures
        terrain_mesh(raster, b).positions[i].y.numer * a.max_image_height == terrain_mesh(
            raster,
            a,
        ).positions[i].y.numer * b.max_image_height,
        terrain_mesh(raster, b).positions[i].y.denom == terrain_mesh(raster, a).positions[i].y.denom,
        terrain_mesh(raster, b).positions[i].x == terrain_mesh(raster, a).positions[i].x,
        terrain_mesh(raster, b).positions[i].z == terrain_mesh(raster, a).positions[i].z,
        terrain_mesh(raster, b).uvs == terrain_mesh(raster, a).uvs,
        terrain_mesh(raster, b).indices == terrain_mesh(raster, a).indices,
{
    let row = lattice_width(raster);
    let cx = i % row;
    let cy = i / row;
    lemma_lattice_corner(raster, i);
    lemma_vertex_position_exact(raster, a, cx, cy);
    lemma_vertex_position_exact(raster, b, cx, cy);
    let sum = corner_sum(raster, cx, cy) as int;
    let top_a = a.max_image_height as int;
    let top_b = b.max_image_height as int;
    assert((sum * top_b) * top_a == (sum * top_a) * top_b) by (nonlinear_arith);
}

/// Horizontal coordinates are proportional to the side length: between two
/// sets of load options with the same maximum height, the two horizontal
/// coordinates of every vertex stand in the ratio of the two side lengths,
/// and nothing else differs.
pub proof fn lemma_horizontals_proportional_to_side_length(
    raster: RasterView,
    a: TerrainImageLoadOptions,
    b: TerrainImageLoadOptions,
    i: int,
)
    requires
        raster.wf(),
        a.max_image_height == b.max_image_height,
        0 <= i < vertex_count(raster),
    ensures
        terrain_mesh(raster, b).positions[i].x * a.pixel_side_length == terrain_mesh(
            raster,
            a,
        ).positions[i].x * b.pixel_side_length,
        terrain_mesh(raster, b).positions[i].z * a.pixel_side_length == terrain_mesh(
            raster,
            a,
        ).positions[i].z * b.pixel_side_length,
        terrain_mesh(raster, b).positions[i].y == terrain_mesh(raster, a).positions[i].y,
        terrain_mesh(raster, b).uvs == terrain_mesh(raster, a).uvs,
        terrain_mesh(raster, b).indices == terrain_mesh(raster, a).indices,
{
    let row = lattice_width(raster);
    let cx = i % row;
    let cy = i / row;
    lemma_lattice_corner(raster, i);
    lemma_vertex_position_exact(raster, a, cx, cy);
    lemma_vertex_position_exact(raster, b, cx, cy);
    let side_a = a.pixel_side_length as int;
    let side_b = b.pixel_side_length as int;
    assert((cx * side_b) * side_a == (cx * side_a) * side_b && (cy * side_b) * side_a == (cy
        * side_a) * side_b) by (nonlinear_arith);
}

/// With a maximum height of zero every vertex has height zero: the terrain
/// is a plane.
pub proof fn lemma_zero_height_is_flat(
    raster: RasterView,
    options: TerrainImageLoadOptions,
    i: int,
)
    requires
        raster.wf(),
        options.max_image_height == 0,
        0 <= i < vertex_count(raster),
    ensures
        terrain_mesh(raster, options).positions[i].y.numer == 0,
        terrain_mesh(raster, options).positions[i].y.denom > 0,
{
    let row = lattice_width(raster);
    lemma_lattice_corner(raster, i);
    lemma_vertex_position_exact(raster, options, i % row, i / row);
}

} // verus!
