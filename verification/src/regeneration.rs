use vstd::prelude::*;

verus! {

/// A request to show the terrain anew.
#[derive(Clone, Copy, Debug, PartialEq, Eq, Structural)]
pub struct SpawnTerrain {
    /// Whether the raster is read and both meshes are rebuilt, or only the
    /// shown mesh is exchanged.
    pub recalculate: bool,
}

/// The two ways to regenerate.
#[derive(Clone, Copy, Debug, PartialEq, Eq, Structural)]
pub enum Regeneration {
    /// Read the raster, sample it and rebuild both meshes.
    Full,
    /// Keep both meshes and select the one of the current style.
    StyleOnly,
}

impl SpawnTerrain {
    /// What the request asks for.
    pub fn regeneration(&self) -> (r: Regeneration)
        ensures
            r == (if self.recalculate {
                Regeneration::Full
            } else {
                Regeneration::StyleOnly
            }),
    {
        if self.recalculate {
            Regeneration::Full
        } else {
            Regeneration::StyleOnly
        }
    }
}

/// Settings of the parameter panel.
#[derive(Clone, Copy, Debug, PartialEq, Eq, Structural)]
pub struct UiSettings {
    /// Whether a changed load option regenerates at once, without waiting
    /// for the request to generate.
    pub auto_generate: bool,
}

impl Default for UiSettings {
    fn default() -> (r: Self)
        ensures
            r == (UiSettings { auto_generate: true }),
    {
        UiSettings { auto_generate: true }
    }
}

impl UiSettings {
    /// The request that follows from one pass over the panel.
    ///
    /// A changed style always asks for a regeneration; changed load options
    /// ask for one when `auto_generate` is set. The regeneration is full
    /// exactly when the load options changed.
    pub fn request(&self, options_changed: bool, style_changed: bool) -> (r: Option<SpawnTerrain>)
        ensures
            r is Some <==> (self.auto_generate && options_changed) || style_changed,
            r matches Some(event) ==> event.recalculate == options_changed,
    {
        if (self.auto_generate && options_changed) || style_changed {
            Some(SpawnTerrain { recalculate: options_changed })
        } else {
            None
        }
    }
}

} // verus!
