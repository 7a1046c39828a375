use vstd::prelude::*;
use image::{DynamicImage, ImageError};
use crate::error::TerrainError;
use crate::geometry::{terrain_mesh, MeshView};
use crate::raster::{raster_outcome, HeightRaster, RasterView};
use crate::terrain::{build_terrain_mesh, TerrainMesh};

verus! {

/// Which of the two prepared meshes is shown.
#[derive(Clone, Copy, Debug, PartialEq, Eq, Structural)]
pub enum MeshStyle {
    Shaded,
    Wireframe,
}

impl Default for MeshStyle {
    fn default() -> (r: Self)
        ensures
            r == MeshStyle::Wireframe,
    {
        MeshStyle::Wireframe
    }
}

impl MeshStyle {
    /// Of two things prepared for the two styles, the one for this style.
    pub fn pick<'a, T>(self, shaded: &'a T, wireframe: &'a T) -> (r: &'a T)
        ensures
            *r == (match self {
                MeshStyle::Shaded => *shaded,
                MeshStyle::Wireframe => *wireframe,
            }),
    {
        match self {
            MeshStyle::Shaded => shaded,
            MeshStyle::Wireframe => wireframe,
        }
    }
}

/// How a raster is scaled into world space. Both values are whole numbers of
/// the caller's world unit; a caller that needs finer steps picks a finer
/// unit.
#[derive(Clone, Copy, Debug, PartialEq, Eq, Structural)]
pub struct TerrainImageLoadOptions {
    /// World height of a corner whose neighbouring samples are all at the
    /// maximum. Zero flattens the terrain to a plane.
    pub max_image_height: u32,
    /// World distance between two neighbouring corners of the lattice.
    pub pixel_side_length: u32,
}

impl Default for TerrainImageLoadOptions {
    fn default() -> (r: Self)
        ensures
            r == (TerrainImageLoadOptions { max_image_height: 20, pixel_side_length: 1 }),
    {
        TerrainImageLoadOptions { max_image_height: 20, pixel_side_length: 1 }
    }
}

/// The two prepared meshes, one per style. After a full regeneration both
/// hold the same geometry.
#[derive(Debug, PartialEq, Eq)]
pub struct TerrainMeshResource {
    pub shaded: TerrainMesh,
    pub wireframe: TerrainMesh,
}

/// The mathematical content of the two prepared meshes.
pub struct ResourceView {
    pub shaded: MeshView,
    pub wireframe: MeshView,
}

impl ResourceView {
    /// Both styles show the same geometry.
    pub open spec fn consistent(self) -> bool {
        self.shaded == self.wireframe
    }

    /// The mesh that is shown under `style`.
    pub open spec fn selected(self, style: MeshStyle) -> MeshView {
        match style {
            MeshStyle::Shaded => self.shaded,
            MeshStyle::Wireframe => self.wireframe,
        }
    }

    /// Both meshes are the mesh of `raster` under `options`.
    pub open spec fn holds(self, raster: RasterView, options: TerrainImageLoadOptions) -> bool {
        self.shaded == terrain_mesh(raster, options) && self.wireframe == terrain_mesh(
            raster,
            options,
        )
    }
}

impl View for TerrainMeshResource {
    type V = ResourceView;

    open spec fn view(&self) -> ResourceView {
        ResourceView { shaded: self.shaded@, wireframe: self.wireframe@ }
    }
}

impl Default for TerrainMeshResource {
    /// Two meshes without vertices.
    fn default() -> (r: Self)
        ensures
            r@.consistent(),
            r@.shaded.positions.len() == 0,
            r@.shaded.uvs.len() == 0,
            r@.shaded.indices.len() == 0,
    {
        let shaded = TerrainMesh::default();
        let wireframe = TerrainMesh::default();
        proof {
            assert(shaded@.positions =~= wireframe@.positions);
            assert(shaded@.uvs =~= wireframe@.uvs);
            assert(shaded@.indices =~= wireframe@.indices);
        }
        TerrainMeshResource { shaded, wireframe }
    }
}

impl TerrainMeshResource {
    /// The mesh to show under `style`. Nothing is rebuilt.
    pub fn select(&self, style: MeshStyle) -> (mesh: &TerrainMesh)
        ensures
            mesh@ == self@.selected(style),
            *mesh == (match style {
                MeshStyle::Shaded => self.shaded,
                MeshStyle::Wireframe => self.wireframe,
            }),
    {
        style.pick(&self.shaded, &self.wireframe)
    }

    /// Full regeneration from a decoded raster: both meshes are rebuilt from
    /// the same geometry.
    pub fn rebuild(&mut self, heightmap: &HeightRaster, options: TerrainImageLoadOptions)
        ensures
            final(self)@.holds(heightmap@, options),
            final(self)@.consistent(),
    {
        let shaded = build_terrain_mesh(heightmap, options);
        let wireframe = shaded.duplicate();
        self.shaded = shaded;
        self.wireframe = wireframe;
    }

    /// Whether a full regeneration under `options` that ended in `r` took
    /// `before` to `after` as `outcome` asks for: with a raster both meshes
    /// are its mesh, with an error nothing has changed.
    pub open spec fn regenerated(
        before: TerrainMeshResource,
        after: TerrainMeshResource,
        r: Result<(), TerrainError>,
        outcome: Result<RasterView, TerrainError>,
        options: TerrainImageLoadOptions,
    ) -> bool {
        match outcome {
            Ok(raster) => r is Ok && after@.holds(raster, options),
            Err(e) => r == Err::<(), TerrainError>(e) && after == before,
        }
    }

    /// Full regeneration from an image file held in memory.
    ///
    /// The bytes go to the decoder as they are. Where the decoder gives a
    /// valid raster, both meshes are rebuilt from it; else the call fails
    /// with the error of `HeightRaster::from_decoded` and leaves both meshes
    /// as they were.
    pub fn regenerate(&mut self, bytes: &[u8], options: TerrainImageLoadOptions) -> (r: Result<
        (),
        TerrainError,
    >)
        ensures
            exists|decoded: Result<DynamicImage, ImageError>|
                Self::regenerated(
                    *old(self),
                    *final(self),
                    r,
                    #[trigger] raster_outcome(decoded),
                    options,
                ),
            r is Ok ==> final(self)@.consistent() && exists|raster: RasterView|
                raster.wf() && #[trigger] final(self)@.holds(raster, options),
            r is Err ==> *final(self) == *old(self),
    {
        let decoded = HeightRaster::decode(bytes);
        let ghost witness = choose|outcome: Result<DynamicImage, ImageError>|
            HeightRaster::is_outcome(decoded, #[trigger] raster_outcome(outcome));
        match decoded {
            Ok(heightmap) => {
                self.rebuild(&heightmap, options);
                proof {
                    assert(heightmap@.wf() && self@.holds(heightmap@, options));
                    assert(Self::regenerated(
                        *old(self),
                        *self,
                        Ok(()),
                        raster_outcome(witness),
                        options,
                    ));
                }
                Ok(())
            },
            Err(e) => {
                proof {
                    assert(Self::regenerated(
                        *old(self),
                        *self,
                        Err(e),
                        raster_outcome(witness),
                        options,
                    ));
                }
                Err(e)
            },
        }
    }
}

/// Switching the style changes which prepared mesh is selected, and nothing
/// of the geometry: after a full regeneration both styles select the same
/// positions, texture coordinates and indices.
pub proof fn lemma_style_switch_keeps_geometry(
    resource: ResourceView,
    from: MeshStyle,
    to: MeshStyle,
)
    requires
        resource.consistent(),
    ensures
        resource.selected(to) == resource.selected(from),
        resource.selected(to).positions == resource.selected(from).positions,
        resource.selected(to).uvs == resource.selected(from).uvs,
        resource.selected(to).indices == resource.selected(from).indices,
{
}

/// What is shown after a full regeneration is the mesh of the raster under
/// the load options, whatever the style.
pub proof fn lemma_shown_mesh_ignores_style(
    resource: ResourceView,
    raster: RasterView,
    options: TerrainImageLoadOptions,
    style: MeshStyle,
)
    requires
        resource.holds(raster, options),
    ensures
        resource.consistent(),
        resource.selected(style) == terrain_mesh(raster, options),
{
}

} // verus!
