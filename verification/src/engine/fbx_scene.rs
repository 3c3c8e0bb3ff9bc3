use vstd::prelude::*;

verus! {

/// Which worlds keep a loaded asset: the main world, the render world, or
/// both (the two bits of bevy's render asset usages).
#[derive(Clone, Copy, Debug, PartialEq, Eq, Structural)]
pub struct AssetUsages {
    pub main_world: bool,
    pub render_world: bool,
}

/// The bit of the main world.
pub const MAIN_WORLD_BIT: u8 = 1;

/// The bit of the render world.
pub const RENDER_WORLD_BIT: u8 = 2;

/// The usage bits: one for the main world, two for the render world.
pub open spec fn usage_bits(usages: AssetUsages) -> int {
    (if usages.main_world { MAIN_WORLD_BIT as int } else { 0 }) + (if usages.render_world {
        RENDER_WORLD_BIT as int
    } else {
        0
    })
}

impl AssetUsages {
    /// No world keeps the asset.
    pub fn empty() -> (usages: Self)
        ensures
            !usages.main_world,
            !usages.render_world,
    {
        AssetUsages { main_world: false, render_world: false }
    }

    /// Only the render world keeps the asset.
    pub fn render_world_only() -> (usages: Self)
        ensures
            !usages.main_world,
            usages.render_world,
    {
        AssetUsages { main_world: false, render_world: true }
    }

    /// The usages as bits.
    pub fn bits(&self) -> (bits: u8)
        ensures
            bits == usage_bits(*self),
    {
        let main: u8 = if self.main_world { MAIN_WORLD_BIT } else { 0 };
        let render: u8 = if self.render_world { RENDER_WORLD_BIT } else { 0 };
        main + render
    }
}

/// Settings with which an FBX file is imported.
#[derive(Clone, Copy, Debug, PartialEq, Eq, Structural)]
pub struct FbxSceneInfo {
    pub convert_coordinates: bool,
    pub include_source: bool,
    pub load_cameras: bool,
    pub load_lights: bool,
    pub load_materials: AssetUsages,
    pub load_meshes: AssetUsages,
}

/// The warning that an empty FBX path gets.
pub open spec fn empty_path_warning() -> Seq<char> {
    "Fbx Path cannot be null"@
}

impl FbxSceneInfo {
    /// Import settings that convert nothing and load nothing extra.
    pub fn new() -> (info: Self)
        ensures
            !info.convert_coordinates,
            !info.include_source,
            !info.load_cameras,
            !info.load_lights,
            info.load_materials == (AssetUsages { main_world: false, render_world: false }),
            info.load_meshes == (AssetUsages { main_world: false, render_world: false }),
    {
        FbxSceneInfo {
            convert_coordinates: false,
            include_source: false,
            load_cameras: false,
            load_lights: false,
            load_materials: AssetUsages::empty(),
            load_meshes: AssetUsages::empty(),
        }
    }

    /// The warning to report before an FBX file at `path` is loaded: there
    /// is one exactly when the path is empty (the load still goes ahead).
    pub fn path_warning(path: &str) -> (warning: Option<&'static str>)
        ensures
            warning is Some <==> path@.len() == 0,
            warning matches Some(w) ==> w@ == empty_path_warning(),
    {
        if path.is_empty() {
            Some("Fbx Path cannot be null")
        } else {
            None
        }
    }
}

/// The usage bits tell the worlds apart: the low bit is set exactly when
/// the main world keeps the asset, the next bit exactly when the render
/// world does, and no bit is set when neither does.
pub proof fn lemma_usage_bits_tell_worlds_apart(usages: AssetUsages)
    ensures
        0 <= usage_bits(usages) <= 3,
        usage_bits(usages) % 2 == 1 <==> usages.main_world,
        usage_bits(usages) >= 2 <==> usages.render_world,
        usage_bits(usages) == 0 <==> !usages.main_world && !usages.render_world,
{
}

} // verus!
